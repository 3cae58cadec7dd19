pub mod results;
