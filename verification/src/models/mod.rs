pub mod conjunction;
pub mod float64;
pub mod orbital_element;
pub mod pagination;
