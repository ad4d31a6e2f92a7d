pub mod basic;
