//! Values the application shares with every request handler.
use vstd::prelude::*;

use crate::hkt::{ArcHKT, RefHKT, SharedPointerHKT, K1};

verus! {

/// The pointer kind the running application shares its values through.
pub type GlobalSharedPointerType = ArcHKT;

/// The address the application is reached at, for links in e-mails.
pub struct ApplicationBaseUrl<P: RefHKT<str>>(pub K1<P, str>);

impl<P: SharedPointerHKT<str>> Clone for ApplicationBaseUrl<P> {
    /// Shares the address with the copy.
    fn clone(&self) -> (r: Self)
        ensures
            r.0@ == self.0@,
    {
        ApplicationBaseUrl(self.0.clone())
    }
}

} // verus!
