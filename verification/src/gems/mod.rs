pub mod gem;
