//! Arguments in the form that an application object of the wrapped toolkit
//! takes: a count, and byte strings that each end with a zero byte.

use vstd::prelude::*;

verus! {

/// Valid `argc` and `argv` values for an application object. The object
/// keeps pointers into them, so they must live longer than it does.
pub struct CoreApplicationArgs {
    values: Vec<Vec<u8>>,
    argc: libc::c_int,
}

/// Model of the arguments.
pub struct ArgsModel {
    pub values: Seq<Seq<u8>>,
    pub argc: int,
}

/// The bytes with a zero byte at the end: unchanged where they end with one.
pub open spec fn terminated(arg: Seq<u8>) -> Seq<u8> {
    if arg.len() > 0 && arg.last() == 0 {
        arg
    } else {
        arg.push(0u8)
    }
}

/// The contents of a list of byte strings.
pub open spec fn bytes_of(args: Seq<Vec<u8>>) -> Seq<Seq<u8>> {
    Seq::new(args.len(), |i: int| args[i]@)
}

/// Each of the byte strings with a zero byte at the end.
pub open spec fn all_terminated(args: Seq<Seq<u8>>) -> Seq<Seq<u8>> {
    Seq::new(args.len(), |i: int| terminated(args[i]))
}

impl View for CoreApplicationArgs {
    type V = ArgsModel;

    closed spec fn view(&self) -> ArgsModel {
        ArgsModel { values: bytes_of(self.values@), argc: self.argc as int }
    }
}

impl CoreApplicationArgs {
    /// Creates an object containing `args`, each ended by a zero byte. The
    /// count is the number of arguments, cut to the width of a C `int`.
    pub fn from(args: Vec<Vec<u8>>) -> (r: CoreApplicationArgs)
        ensures
            r@.values == all_terminated(bytes_of(args@)),
            r@.argc == (args@.len() as libc::c_int) as int,
            args@.len() <= i32::MAX ==> r@.argc == args@.len(),
    {
        let mut args = args;
        let ghost given = bytes_of(args@);
        let mut i: usize = 0;
        while i < args.len()
            invariant
                i <= args.len(),
                args.len() == given.len(),
                forall|j: int| 0 <= j < i ==> (#[trigger] args@[j])@ == terminated(given[j]),
                forall|j: int| i <= j < args.len() ==> (#[trigger] args@[j])@ == given[j],
            decreases args.len() - i,
        {
            let arg = &mut args[i];
            let n = arg.len();
            if n == 0 || arg[n - 1] != 0 {
                arg.push(0);
            }
            i += 1;
        }
        let argc = #[verifier::truncate]
        (args.len() as libc::c_int);
        let r = CoreApplicationArgs { argc, values: args };
        r
    }

    /// Creates an object containing an empty list of arguments.
    pub fn empty() -> (r: CoreApplicationArgs)
        ensures
            r@.values == Seq::<Seq<u8>>::empty(),
            r@.argc == 0,
    {
        let r = CoreApplicationArgs::from(Vec::new());
        r
    }

    /// Returns the count and the arguments for the application object to
    /// read and to change.
    pub fn get(&mut self) -> (r: (&mut libc::c_int, &mut Vec<Vec<u8>>))
        ensures
            *r.0 as int == old(self)@.argc,
            bytes_of(r.1@) == old(self)@.values,
            final(self)@.argc == *final(r.0) as int,
            final(self)@.values == bytes_of(final(r.1)@),
    {
        (&mut self.argc, &mut self.values)
    }

    /// Creates an object for a toolkit that does not read the arguments of
    /// the process: it contains the empty list.
    pub fn from_real() -> (r: CoreApplicationArgs)
        ensures
            r@.values == Seq::<Seq<u8>>::empty(),
            r@.argc == 0,
    {
        CoreApplicationArgs::empty()
    }
}

} // verus!
