use vstd::prelude::*;

verus! {

/// A stream that may have been upgraded to TLS: `S` is the plain stream, `T` the
/// secured one. `Invalid` stands only while an upgrade is under way.
pub enum MaybeSsl<S, T> {
    Ssl(T),
    NoSsl(S),
    Invalid,
}

impl<S, T> MaybeSsl<S, T> {
    /// A plain stream, not yet upgraded.
    pub fn new(s: S) -> (r: MaybeSsl<S, T>)
        ensures
            r == MaybeSsl::<S, T>::NoSsl(s),
    {
        MaybeSsl::NoSsl(s)
    }

    /// Upgrades a plain stream: `upgrade` takes the plain stream and gives the secured one.
    pub fn establish<F: FnOnce(S) -> T>(&mut self, upgrade: F)
        requires
            *old(self) is NoSsl,
            call_requires(upgrade, ((*old(self))->NoSsl_0,)),
        ensures
            *final(self) matches MaybeSsl::Ssl(t) && call_ensures(upgrade, ((*old(self))->NoSsl_0,), t),
    {
        let mut cur: MaybeSsl<S, T> = MaybeSsl::Invalid;
        std::mem::swap(self, &mut cur);
        match cur {
            MaybeSsl::NoSsl(stream) => {
                *self = MaybeSsl::Ssl(upgrade(stream));
            },
            _ => {},
        }
    }
}

} // verus!
