//! The persisted data: tasks and display settings, and what makes them valid.

use vstd::prelude::*;

verus! {

/// A task as stored on disk. `notes` defaults to empty for files written
/// before notes existed.
#[derive(Clone, Debug, PartialEq)]
pub struct Todo {
    pub text: String,
    pub done: bool,
    pub created: u64,
    pub notes: Vec<String>,
}

/// Persisted window preferences.
#[derive(Clone, Debug, PartialEq)]
pub struct Settings {
    pub side: String,
    pub collapsed: bool,
    pub ontop: bool,
    pub completed_expanded: bool,
}

/// A dock side is valid when it names the left or the right screen edge.
pub open spec fn valid_side(side: Seq<char>) -> bool {
    side == "left"@ || side == "right"@
}

/// Data that a store may persist: it can check itself, and it has a
/// first-use value that stands in for a file that does not exist yet.
pub trait Validate: Sized {
    /// The data may be written and read back.
    spec fn valid(&self) -> bool;

    /// Why the data is invalid, when it is.
    spec fn problem(&self) -> Seq<char>;

    /// The value is the one used when no file exists yet.
    spec fn is_first_use(&self) -> bool;

    fn validate(&self) -> (r: Result<(), String>)
        ensures
            r is Ok <==> self.valid(),
            r matches Err(e) ==> e@ == self.problem(),
    ;

    fn first_use() -> (r: Self)
        ensures
            r.is_first_use(),
            r.valid(),
    ;
}

/// Exact text comparison of a string with a literal.
pub fn text_is(s: &String, lit: &str) -> (r: bool)
    ensures
        r == (s@ == lit@),
{
    let other = String::from_str(lit);
    *s == other
}

impl Validate for Vec<Todo> {
    open spec fn valid(&self) -> bool {
        true
    }

    open spec fn problem(&self) -> Seq<char> {
        Seq::empty()
    }

    open spec fn is_first_use(&self) -> bool {
        self@.len() == 0
    }

    fn validate(&self) -> (r: Result<(), String>) {
        Ok(())
    }

    fn first_use() -> (r: Self) {
        Vec::new()
    }
}

impl Settings {
    /// The defaults: docked right, expanded, always on top, completed
    /// section folded.
    pub open spec fn is_default(&self) -> bool {
        &&& self.side@ == "right"@
        &&& !self.collapsed
        &&& self.ontop
        &&& !self.completed_expanded
    }
}

impl Default for Settings {
    fn default() -> (r: Self)
        ensures
            r.is_default(),
    {
        Settings {
            side: String::from_str("right"),
            collapsed: false,
            ontop: true,
            completed_expanded: false,
        }
    }
}

impl Validate for Settings {
    open spec fn valid(&self) -> bool {
        valid_side(self.side@)
    }

    open spec fn problem(&self) -> Seq<char> {
        "无效停靠方向：side 必须是 left 或 right"@
    }

    open spec fn is_first_use(&self) -> bool {
        self.is_default()
    }

    fn validate(&self) -> (r: Result<(), String>) {
        if !text_is(&self.side, "left") && !text_is(&self.side, "right") {
            return Err(String::from_str("无效停靠方向：side 必须是 left 或 right"));
        }
        Ok(())
    }

    fn first_use() -> (r: Self) {
        let r = Settings::default();
        proof {
            reveal_strlit("right");
        }
        r
    }
}

} // verus!
