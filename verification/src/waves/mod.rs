pub mod waves;
