pub mod shapes;
