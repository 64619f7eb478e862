pub mod expression;
pub mod statement;
pub mod types;
