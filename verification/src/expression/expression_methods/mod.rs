//! Methods on expressions.

pub mod nullable_expression_methods;
pub use self::nullable_expression_methods::NullableExpressionMethods;
