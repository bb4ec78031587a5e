pub mod search;
