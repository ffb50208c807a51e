//! Turning a command line model back into arguments, as a relaunch with
//! elevated privileges needs them.

use vstd::prelude::*;
use vstd::string::*;
use crate::text::texts;

verus! {

/// A value that can be written as command line arguments.
pub trait ToArgs {
    /// The arguments of the value.
    spec fn arg_texts(&self) -> Seq<Seq<char>>;

    /// Writes the value as command line arguments.
    fn to_args(&self) -> (args: Vec<String>)
        ensures
            texts(args@) == self.arg_texts(),
    ;
}

/// Appends the text `s` to `args`.
pub fn push_text(args: &mut Vec<String>, s: &str)
    ensures
        texts(final(args)@) == texts(old(args)@).push(s@),
{
    args.push(String::from_str(s));
    assert(texts(args@) =~= texts(old(args)@).push(s@));
}

/// Appends the string `s` to `args`.
pub fn push_string(args: &mut Vec<String>, s: String)
    ensures
        texts(final(args)@) == texts(old(args)@).push(s@),
{
    args.push(s);
    assert(texts(args@) =~= texts(old(args)@).push(s@));
}

/// Appends the arguments `more` to `args`.
pub fn push_all(args: &mut Vec<String>, more: Vec<String>)
    ensures
        texts(final(args)@) == texts(old(args)@) + texts(more@),
{
    let mut more = more;
    let ghost added = more@;
    args.append(&mut more);
    assert(texts(args@) =~= texts(old(args)@) + texts(added));
}

/// The arguments that the running program was started with.
#[derive(Debug)]
pub struct ThisInvocation {
    /// What the system handed to the program: its own name first.
    pub argv: Vec<String>,
}

impl ThisInvocation {
    /// The invocation with the given argument vector.
    pub fn new(argv: Vec<String>) -> (r: Self)
        ensures
            r.argv@ == argv@,
    {
        ThisInvocation { argv }
    }
}

impl ToArgs for ThisInvocation {
    /// Everything after the program's own name.
    open spec fn arg_texts(&self) -> Seq<Seq<char>> {
        if self.argv@.len() == 0 {
            Seq::empty()
        } else {
            texts(self.argv@).skip(1)
        }
    }

    fn to_args(&self) -> (args: Vec<String>) {
        let mut args: Vec<String> = Vec::new();
        let mut i: usize = 1;
        if self.argv.len() == 0 {
            assert(texts(args@) =~= Seq::empty());
            return args;
        }
        assert(texts(args@) =~= texts(self.argv@).subrange(1, 1));
        while i < self.argv.len()
            invariant
                1 <= i <= self.argv.len(),
                texts(args@) == texts(self.argv@).subrange(1, i as int),
            decreases self.argv.len() - i,
        {
            let ghost before = texts(args@);
            push_string(&mut args, self.argv[i].clone());
            assert(texts(self.argv@).subrange(1, i + 1) =~= before.push(self.argv@[i as int]@));
            i += 1;
        }
        assert(texts(self.argv@).subrange(1, self.argv.len() as int) =~= texts(self.argv@).skip(
            1,
        ));
        args
    }
}

/// The arguments in one line, each followed by a space: the parameter string
/// that a relaunch hands to the system.
pub open spec fn parameter_line(args: Seq<Seq<char>>) -> Seq<char>
    decreases args.len(),
{
    if args.len() == 0 {
        Seq::empty()
    } else {
        parameter_line(args.drop_last()) + args.last() + seq![' ']
    }
}

/// Builds the parameter string of a relaunch from its arguments.
pub fn parameters_of(args: &Vec<String>) -> (line: String)
    ensures
        line@ == parameter_line(texts(args@)),
{
    let mut line = String::new();
    let mut i: usize = 0;
    assert(texts(args@).subrange(0, 0) =~= Seq::<Seq<char>>::empty());
    while i < args.len()
        invariant
            i <= args.len(),
            line@ == parameter_line(texts(args@).subrange(0, i as int)),
        decreases args.len() - i,
    {
        let ghost before = line@;
        line.append(args[i].as_str());
        line.push(' ');
        proof {
            let upto = texts(args@).subrange(0, i + 1);
            assert(upto.drop_last() =~= texts(args@).subrange(0, i as int));
            assert(upto.last() == args@[i as int]@);
            assert(line@ =~= before + args@[i as int]@ + seq![' ']);
        }
        i += 1;
    }
    assert(texts(args@).subrange(0, args.len() as int) =~= texts(args@));
    line
}

} // verus!
