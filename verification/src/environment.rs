//! The variables of the process environment, as a list of names and values
//! that the caller has read.

use vstd::prelude::*;
use crate::json::text_of;
use crate::text::same_text;

verus! {

/// Names and values, in the order in which they were read.
#[derive(Debug, PartialEq, Eq)]
pub struct Environment {
    pub vars: Vec<(String, String)>,
}

impl View for Environment {
    type V = Seq<(Seq<char>, Seq<char>)>;

    open spec fn view(&self) -> Seq<(Seq<char>, Seq<char>)> {
        self.vars.deep_view()
    }
}

/// The value of the first variable called `name`, if there is one.
pub open spec fn spec_lookup(vars: Seq<(Seq<char>, Seq<char>)>, name: Seq<char>) -> Option<
    Seq<char>,
>
    decreases vars.len(),
{
    if vars.len() == 0 {
        None
    } else if vars[0].0 == name {
        Some(vars[0].1)
    } else {
        spec_lookup(vars.drop_first(), name)
    }
}

impl Environment {
    /// An environment that holds the given variables.
    pub fn new(vars: Vec<(String, String)>) -> (r: Environment)
        ensures
            r@ == vars.deep_view(),
    {
        Environment { vars }
    }

    /// The value of the variable `name`, or `None` where it is not set.
    pub fn lookup(&self, name: &str) -> (r: Option<String>)
        ensures
            text_of(r) == spec_lookup(self@, name@),
    {
        let n = self.vars.len();
        let mut i: usize = 0;
        assert(self@.skip(0) =~= self@);
        while i < n
            invariant
                i <= n == self.vars.len(),
                spec_lookup(self@, name@) == spec_lookup(self@.skip(i as int), name@),
            decreases n - i,
        {
            let ghost rest = self@.skip(i as int);
            assert(rest[0] == self.vars@[i as int].deep_view());
            assert(rest.drop_first() =~= self@.skip(i + 1));
            if same_text(self.vars[i].0.as_str(), name) {
                return Some(self.vars[i].1.clone());
            }
            i = i + 1;
        }
        None
    }
}

} // verus!
