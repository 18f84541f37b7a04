//! Containers whose shape is chosen by a compile-time flag.
//!
//! `ConstOption<T, IS_SOME>` holds one `T` when `IS_SOME` is `true` and nothing
//! when it is `false`; `ConstEither<L, R, IS_RIGHT>` holds an `L` or an `R`,
//! chosen by `IS_RIGHT`. Reading a value is only offered in the configuration
//! where it exists, so misuse is a compile-time error rather than a panic.
//!
//! The flag picks the type of the single stored field (see `select`): a
//! present optional stores just its `T`, an absent one stores `()` and is
//! zero-sized, and an either stores just its live `L` or `R`. There is no
//! runtime tag and no runtime branch, and the payload is dropped exactly once,
//! with its container. Code generic over the flag carries the bound
//! `Flag<B>: Pick<T>` (or `Flag<B>: PickSide<L, R>`).

pub mod either;
pub mod option;
pub mod select;

pub use either::ConstEither;
pub use option::ConstOption;
