pub mod use_cases;
