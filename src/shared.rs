use vstd::prelude::*;
use vstd::string::StringExecFns;

verus! {

/// Compiler options.
#[derive(Clone, Copy, Debug, PartialEq, Eq, Structural)]
pub struct Flags {
    /// Compile in test mode.
    pub test: bool,
}

impl Flags {
    pub fn empty() -> (r: Flags)
        ensures
            !r.test,
    {
        Flags { test: false }
    }

    pub fn testing() -> (r: Flags)
        ensures
            r.test,
    {
        Flags { test: true }
    }

    pub fn is_testing(&self) -> (r: bool)
        ensures
            r == self.test,
    {
        self.test
    }
}

/// A place in a source file: the file and a span of byte offsets.
#[derive(Clone, Debug)]
pub struct Loc {
    pub file: String,
    pub start: u32,
    pub end: u32,
}

/// A value with the place in the source it came from.
#[derive(Clone, Debug)]
pub struct Name {
    pub loc: Loc,
    pub value: String,
}

/// A name that can be taken apart into its place and its key, and put back.
pub trait TName: Sized {
    type Key;
    type Loc;

    spec fn spec_loc(&self) -> Self::Loc;

    spec fn spec_key(&self) -> Self::Key;

    fn drop_loc(self) -> (r: (Self::Loc, Self::Key))
        ensures
            r.0 == self.spec_loc(),
            r.1 == self.spec_key(),
    ;

    fn add_loc(loc: Self::Loc, key: Self::Key) -> (r: Self)
        ensures
            r.spec_loc() == loc,
            r.spec_key() == key,
    ;

    fn borrow(&self) -> (r: (&Self::Loc, &Self::Key))
        ensures
            *r.0 == self.spec_loc(),
            *r.1 == self.spec_key(),
    ;
}

/// Something named in the source: its text and its place.
pub trait Identifier {
    spec fn spec_value(&self) -> Seq<char>;

    spec fn spec_loc(&self) -> Loc;

    fn value(&self) -> (r: &str)
        ensures
            r@ == self.spec_value(),
    ;

    fn loc(&self) -> (r: &Loc)
        ensures
            *r == self.spec_loc(),
    ;
}

impl TName for Name {
    type Key = String;
    type Loc = Loc;

    open spec fn spec_loc(&self) -> Loc {
        self.loc
    }

    open spec fn spec_key(&self) -> String {
        self.value
    }

    fn drop_loc(self) -> (Loc, String) {
        (self.loc, self.value)
    }

    fn add_loc(loc: Loc, key: String) -> Name {
        Name { loc, value: key }
    }

    fn borrow(&self) -> (&Loc, &String) {
        (&self.loc, &self.value)
    }
}

impl Identifier for Name {
    open spec fn spec_value(&self) -> Seq<char> {
        self.value@
    }

    open spec fn spec_loc(&self) -> Loc {
        self.loc
    }

    fn value(&self) -> &str {
        self.value.as_str()
    }

    fn loc(&self) -> &Loc {
        &self.loc
    }
}

/// One diagnostic: messages, each at a place.
pub type Error = Vec<(Loc, String)>;

/// The diagnostics of a compilation.
pub type Errors = Vec<Error>;

/// What a compilation carries along: its options and the diagnostics so far.
pub struct CompilationEnv {
    pub flags: Flags,
    pub errors: Errors,
}

impl CompilationEnv {
    pub fn new(flags: Flags) -> (r: CompilationEnv)
        ensures
            r.flags == flags,
            r.errors@.len() == 0,
    {
        CompilationEnv { flags, errors: Vec::new() }
    }

    /// Adds one diagnostic.
    pub fn add_error(&mut self, e: Error)
        ensures
            final(self).flags == old(self).flags,
            final(self).errors@ == old(self).errors@.push(e),
    {
        self.errors.push(e);
    }

    /// Adds the diagnostics `es`, after those already there.
    pub fn add_errors(&mut self, es: Errors)
        ensures
            final(self).flags == old(self).flags,
            final(self).errors@ == old(self).errors@ + es@,
    {
        let mut es = es;
        self.errors.append(&mut es);
    }

    pub fn has_errors(&self) -> (r: bool)
        ensures
            r == (self.errors@.len() > 0),
    {
        !self.errors.is_empty()
    }

    pub fn count_errors(&self) -> (r: usize)
        ensures
            r == self.errors@.len(),
    {
        self.errors.len()
    }

    /// Hands out the diagnostics, if there are any, and leaves none behind.
    pub fn check_errors(&mut self) -> (r: Result<(), Errors>)
        ensures
            final(self).flags == old(self).flags,
            old(self).errors@.len() == 0 ==> r is Ok && final(self).errors@ == old(self).errors@,
            old(self).errors@.len() > 0 ==> (r matches Err(es) && es@ == old(self).errors@),
            old(self).errors@.len() > 0 ==> final(self).errors@.len() == 0,
    {
        if self.has_errors() {
            let mut taken: Errors = Vec::new();
            std::mem::swap(&mut taken, &mut self.errors);
            Err(taken)
        } else {
            Ok(())
        }
    }

    pub fn flags(&self) -> (r: &Flags)
        ensures
            *r == self.flags,
    {
        &self.flags
    }
}

/// Of two paths that may be missing, each with its length, the one to keep
/// while looking for the shortest: the shorter, the earlier on a tie.
pub open spec fn shorter_of<P>(acc: Option<(usize, P)>, cur: Option<(usize, P)>) -> Option<(usize, P)> {
    match (acc, cur) {
        (None, c) => c,
        (a, None) => a,
        (Some(a), Some(c)) => if c.0 < a.0 {
            Some(c)
        } else {
            Some(a)
        },
    }
}

/// Keeps the shorter of the path found so far and a new one, as a search for
/// a shortest cycle does.
pub fn shorter_path<P>(acc: Option<(usize, P)>, cur: Option<(usize, P)>) -> (r: Option<(usize, P)>)
    ensures
        r == shorter_of(acc, cur),
{
    match (acc, cur) {
        (None, c) => c,
        (a, None) => a,
        (Some(a), Some(c)) => if c.0 < a.0 {
            Some(c)
        } else {
            Some(a)
        },
    }
}

/// `items` written one after another with `delim` between each two.
pub open spec fn joined(items: Seq<Seq<char>>, delim: Seq<char>) -> Seq<char>
    decreases items.len(),
{
    if items.len() == 0 {
        Seq::empty()
    } else if items.len() == 1 {
        items[0]
    } else {
        joined(items.drop_last(), delim) + delim + items.last()
    }
}

/// The text of each item, with `delim` between each two.
pub fn format_delim(items: &Vec<String>, delim: &str) -> (r: String)
    ensures
        r@ == joined(items@.map_values(|s: String| s@), delim@),
{
    let ghost texts = items@.map_values(|s: String| s@);
    let mut out = String::new();
    let mut i: usize = 0;
    while i < items.len()
        invariant
            i <= items.len(),
            texts == items@.map_values(|s: String| s@),
            out@ == joined(texts.subrange(0, i as int), delim@),
        decreases items.len() - i,
    {
        proof {
            assert(texts.subrange(0, i + 1).drop_last() =~= texts.subrange(0, i as int));
        }
        if i > 0 {
            out.append(delim);
        }
        out.append(items[i].as_str());
        proof {
            if i == 0 {
                assert(out@ =~= texts.subrange(0, 1)[0]);
            }
        }
        i = i + 1;
    }
    proof {
        assert(texts.subrange(0, items.len() as int) =~= texts);
    }
    out
}

/// The text of each item, separated by a comma and a space.
pub fn format_comma(items: &Vec<String>) -> (r: String)
    ensures
        r@ == joined(items@.map_values(|s: String| s@), ", "@),
{
    format_delim(items, ", ")
}

/// The attributes that mark test code.
#[derive(Clone, Copy, Debug, PartialEq, Eq, Structural)]
pub enum TestingAttributes {
    /// Callable from other test code; compiled in test mode only.
    TestOnly,
    /// A test to run.
    Test,
    /// The test is expected to fail.
    ExpectedFailure,
}

/// The attribute named `s`, if there is one.
pub open spec fn attribute_named(s: Seq<char>) -> Option<TestingAttributes> {
    if s == "test"@ {
        Some(TestingAttributes::Test)
    } else if s == "test_only"@ {
        Some(TestingAttributes::TestOnly)
    } else if s == "expected_failure"@ {
        Some(TestingAttributes::ExpectedFailure)
    } else {
        None
    }
}

impl TestingAttributes {
    /// The attribute written `attribute_str`, if any.
    pub fn resolve(attribute_str: &str) -> (r: Option<TestingAttributes>)
        ensures
            r == attribute_named(attribute_str@),
    {
        let s = String::from_str(attribute_str);
        let test = String::from_str("test");
        let test_only = String::from_str("test_only");
        let expected_failure = String::from_str("expected_failure");
        if s == test {
            Some(TestingAttributes::Test)
        } else if s == test_only {
            Some(TestingAttributes::TestOnly)
        } else if s == expected_failure {
            Some(TestingAttributes::ExpectedFailure)
        } else {
            None
        }
    }

    /// How the attribute is written.
    pub fn name(&self) -> (r: &'static str)
        ensures
            attribute_named(r@) == Some(*self),
    {
        proof {
            reveal_strlit("test");
            reveal_strlit("test_only");
            reveal_strlit("expected_failure");
            assert("test"@.len() != "test_only"@.len());
            assert("test"@.len() != "expected_failure"@.len());
            assert("test_only"@.len() != "expected_failure"@.len());
        }
        match self {
            TestingAttributes::Test => "test",
            TestingAttributes::TestOnly => "test_only",
            TestingAttributes::ExpectedFailure => "expected_failure",
        }
    }
}

} // verus!
