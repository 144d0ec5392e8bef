use vstd::prelude::*;

verus! {

/// Outcome of a read: a value was found, the key is absent, or the
/// operation itself failed. Absence is not an error.
#[derive(Clone, Debug, PartialEq, Eq, PartialOrd, Ord)]
pub enum RocksDBResult<T, E> {
    Found(T),
    Absent,
    Error(E),
}

impl<T, E> RocksDBResult<T, E> {
    /// Applies `f` to a found value; absence and failure pass through.
    pub fn map<U, F: FnOnce(T) -> U>(self, f: F) -> (r: RocksDBResult<U, E>)
        requires
            self is Found ==> f.requires((self->Found_0,)),
        ensures
            self is Found ==> r is Found && f.ensures((self->Found_0,), r->Found_0),
            self is Absent ==> r is Absent,
            self is Error ==> r == RocksDBResult::<U, E>::Error(self->Error_0),
    {
        match self {
            RocksDBResult::Found(x) => RocksDBResult::Found(f(x)),
            RocksDBResult::Absent => RocksDBResult::Absent,
            RocksDBResult::Error(e) => RocksDBResult::Error(e),
        }
    }

    /// The found value; only called on a result that holds one.
    pub fn unwrap(self) -> (r: T)
        requires
            self is Found,
        ensures
            r == self->Found_0,
    {
        match self {
            RocksDBResult::Found(x) => x,
            RocksDBResult::Absent => unreached(),
            RocksDBResult::Error(_) => unreached(),
        }
    }

    /// Applies `f` to the error of a failed result; a found value and
    /// absence pass through.
    pub fn on_error<U, F: FnOnce(E) -> U>(self, f: F) -> (r: RocksDBResult<T, U>)
        requires
            self is Error ==> f.requires((self->Error_0,)),
        ensures
            self is Found ==> r == RocksDBResult::<T, U>::Found(self->Found_0),
            self is Absent ==> r is Absent,
            self is Error ==> r is Error && f.ensures((self->Error_0,), r->Error_0),
    {
        match self {
            RocksDBResult::Found(x) => RocksDBResult::Found(x),
            RocksDBResult::Absent => RocksDBResult::Absent,
            RocksDBResult::Error(e) => RocksDBResult::Error(f(e)),
        }
    }

    /// Runs `f` when the result is absent; the result itself is unchanged.
    pub fn on_absent<F: FnOnce()>(self, f: F) -> (r: RocksDBResult<T, E>)
        requires
            self is Absent ==> f.requires(()),
        ensures
            r == self,
            self is Absent ==> f.ensures((), ()),
    {
        match self {
            RocksDBResult::Found(x) => RocksDBResult::Found(x),
            RocksDBResult::Absent => {
                f();
                RocksDBResult::Absent
            },
            RocksDBResult::Error(e) => RocksDBResult::Error(e),
        }
    }

    pub fn is_some(self) -> (r: bool)
        ensures
            r == self is Found,
    {
        match self {
            RocksDBResult::Found(_) => true,
            RocksDBResult::Absent => false,
            RocksDBResult::Error(_) => false,
        }
    }

    pub fn is_none(self) -> (r: bool)
        ensures
            r == self is Absent,
    {
        match self {
            RocksDBResult::Found(_) => false,
            RocksDBResult::Absent => true,
            RocksDBResult::Error(_) => false,
        }
    }

    pub fn is_error(self) -> (r: bool)
        ensures
            r == self is Error,
    {
        match self {
            RocksDBResult::Found(_) => false,
            RocksDBResult::Absent => false,
            RocksDBResult::Error(_) => true,
        }
    }
}

} // verus!
