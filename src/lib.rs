//! A value that is either still being worked on or already finalized, with
//! combinators that change working values and leave finalized values alone.
pub mod finalizable;
pub mod laws;
pub mod seq_view;

pub use finalizable::Finalizable;
pub use finalizable::Finalizable::Finalized;
pub use finalizable::Finalizable::Working;
pub use finalizable::Residual;
pub use seq_view::IntoIter;
