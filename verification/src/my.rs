//! A second tree, which holds its functions a few modules down.

pub mod nested;
