//! Take semantics: moving a payload out of the container that owns it.
//!
//! Taking from a container hands the payload to the caller and releases the
//! container's shell. The payload's destructor never runs during the
//! hand-over: it runs when the caller lets go of what it was given, and
//! nowhere else.
//!
//! - [`Suppressed`] is the staging area that every take goes through.
//! - [`IntoOwned`] turns a staged value into its owned, sized form.
//! - [`DerefTake`] takes the payload out of an owning container.
//! - [`Take`] takes a value of a given type out of any source that can give
//!   one up, a plain value included.

pub mod suppressed;
pub use self::suppressed::admits;
pub use self::suppressed::extracts;
pub use self::suppressed::Suppressed;

pub mod intoowned;
pub use self::intoowned::IntoOwned;

pub mod dereftake;
pub use self::dereftake::move_run;
pub use self::dereftake::unshare;
pub use self::dereftake::DerefTake;

pub mod take;
pub use self::take::Take;
