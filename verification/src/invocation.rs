//! External programs as values: what to run, with which arguments and in
//! which environment, and what the way a program ended means.

use vstd::prelude::*;
use crate::errors::{Error, ErrorKind};
use crate::numeral::{decimal, to_decimal};
use crate::text::{concat, join, joined, views};

verus! {

/// One run of an external program, to be carried out by the caller.
#[derive(Clone, Debug)]
pub struct Invocation {
    pub program: String,
    pub args: Vec<String>,
    /// Variables added to the environment of the child, in this order.
    pub envs: Vec<(String, String)>,
    /// The directory the child starts in, where it is not the caller's.
    pub current_dir: Option<String>,
    /// Whether what the child prints is to be discarded.
    pub quiet: bool,
}

/// The views of a sequence of pairs of strings.
pub open spec fn pair_views(v: Seq<(String, String)>) -> Seq<(Seq<char>, Seq<char>)> {
    Seq::new(v.len(), |i: int| (v[i].0@, v[i].1@))
}

/// The view of an optional string.
pub open spec fn option_view(o: Option<String>) -> Option<Seq<char>> {
    match o {
        Some(s) => Some(s@),
        None => None,
    }
}

/// An invocation as the contracts see it.
#[verifier::ext_equal]
pub struct InvocationView {
    pub program: Seq<char>,
    pub args: Seq<Seq<char>>,
    pub envs: Seq<(Seq<char>, Seq<char>)>,
    pub current_dir: Option<Seq<char>>,
    pub quiet: bool,
}

impl View for Invocation {
    type V = InvocationView;

    open spec fn view(&self) -> InvocationView {
        InvocationView {
            program: self.program@,
            args: views(self.args@),
            envs: pair_views(self.envs@),
            current_dir: option_view(self.current_dir),
            quiet: self.quiet,
        }
    }
}

impl InvocationView {
    /// The run of `program` with the arguments `args` and nothing else set.
    pub open spec fn plain(program: Seq<char>, args: Seq<Seq<char>>) -> InvocationView {
        InvocationView {
            program,
            args,
            envs: Seq::empty(),
            current_dir: None,
            quiet: false,
        }
    }

    /// The program and its arguments on one line, a space between each.
    pub open spec fn line(self) -> Seq<char> {
        joined(seq![self.program] + self.args, " "@)
    }
}

/// Appends a copy of `s` to `v`.
pub fn push_text(v: &mut Vec<String>, s: &str)
    ensures
        views(final(v)@) == views(old(v)@).push(s@),
{
    v.push(s.to_owned());
}

/// Appends the pair of `key` and `value` to `v`.
pub fn push_pair(v: &mut Vec<(String, String)>, key: &str, value: &str)
    ensures
        pair_views(final(v)@) == pair_views(old(v)@).push((key@, value@)),
{
    v.push((key.to_owned(), value.to_owned()));
}

/// Appends a copy of each string of `more` to `v`.
pub fn push_texts(v: &mut Vec<String>, more: &Vec<String>)
    ensures
        views(final(v)@) == views(old(v)@) + views(more@),
{
    let mut i: usize = 0;
    while i < more.len()
        invariant
            i <= more.len(),
            views(v@) == views(old(v)@) + views(more@).take(i as int),
        decreases more.len() - i,
    {
        let ghost prev = v@;
        v.push(more[i].clone());
        assert(views(v@) == views(prev).push(more@[i as int]@));
        assert(views(more@).take(i + 1) == views(more@).take(i as int).push(more@[i as int]@));
        i += 1;
    }
    assert(views(more@).take(more.len() as int) == views(more@));
}

impl Invocation {
    /// The run of `program` without arguments.
    pub fn new(program: &str) -> (r: Invocation)
        ensures
            r@ =~= InvocationView::plain(program@, Seq::empty()),
    {
        Invocation {
            program: program.to_owned(),
            args: Vec::new(),
            envs: Vec::new(),
            current_dir: None,
            quiet: false,
        }
    }

    /// Adds one argument.
    pub fn arg(&mut self, a: &str)
        ensures
            final(self)@ =~= (InvocationView { args: old(self)@.args.push(a@), ..old(self)@ }),
    {
        push_text(&mut self.args, a);
    }

    /// Adds one variable to the child's environment.
    pub fn env(&mut self, key: &str, value: &str)
        ensures
            final(self)@ =~= (InvocationView {
                envs: old(self)@.envs.push((key@, value@)),
                ..old(self)@
            }),
    {
        push_pair(&mut self.envs, key, value);
    }

    /// The program and its arguments on one line, a space between each.
    pub fn to_string(&self) -> (s: String)
        ensures
            s@ == self@.line(),
    {
        let mut all: Vec<String> = Vec::new();
        push_text(&mut all, self.program.as_str());
        push_texts(&mut all, &self.args);
        assert(views(all@) == seq![self.program@] + views(self.args@));
        join(&all, " ")
    }
}

// ---------------------------------------------------------------------------
// How a program ended
// ---------------------------------------------------------------------------

/// Whether the exit code is that of a success. A child that a signal ended
/// has no code.
pub open spec fn succeeded(code: Option<i32>) -> bool {
    code == Some(0i32)
}

/// The numeral of a signed number.
pub open spec fn signed_decimal(n: int) -> Seq<char> {
    if n < 0 {
        seq!['-'] + decimal((-n) as nat)
    } else {
        decimal(n as nat)
    }
}

/// How a child ended, in words.
pub open spec fn status_text(code: Option<i32>) -> Seq<char> {
    match code {
        Some(c) => "exit status: "@ + signed_decimal(c as int),
        None => "terminated by a signal"@,
    }
}

/// How a child ended, in words.
pub fn describe_status(code: Option<i32>) -> (s: String)
    ensures
        s@ == status_text(code),
{
    match code {
        Some(c) => {
            let wide: i64 = c as i64;
            let digits = if wide < 0 {
                let m: u64 = (0 - wide) as u64;
                concat("-", to_decimal(m).as_str())
            } else {
                to_decimal(wide as u64)
            };
            proof {
                reveal_strlit("-");
                assert("-"@ == seq!['-']);
            }
            concat("exit status: ", digits.as_str())
        },
        None => "terminated by a signal".to_owned(),
    }
}

/// The result of a step whose child must succeed: the failure of class
/// `kind` with the message `message` unless the child ended with code 0.
pub fn expect_success(code: Option<i32>, kind: ErrorKind, message: &str) -> (r: Result<(), Error>)
    ensures
        succeeded(code) ==> r is Ok,
        !succeeded(code) ==> r is Err && r->Err_0.is(kind, message@),
{
    match code {
        Some(c) => {
            if c == 0 {
                Ok(())
            } else {
                Err(Error::new(kind, message))
            }
        },
        None => Err(Error::new(kind, message)),
    }
}

} // verus!
