//! Small verified building blocks: a space-delimited tokenizer over text views,
//! one-based indexing with a typed range error, and a handful of plain data types
//! with exact contracts on their operations.

pub mod basics;
pub mod coins;
pub mod rectangle;
pub mod restaurant;
pub mod tokenizer;
pub mod user;
