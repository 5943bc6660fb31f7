use vstd::prelude::*;

use crate::cmake::CMakeSweeper;
use crate::node::NodeSweeper;
use crate::path::eq_ignore_ascii_case;
use crate::path::str_eq_ignore_ascii_case;
use crate::rust::RustSweeper;
use crate::sweeper::SweeperKind;

verus! {

/// A sweeper chosen on the command line.
#[derive(Clone, PartialEq, Eq, PartialOrd, Ord, Debug, Structural)]
pub enum ArgSweeper {
    CMake,
    Node,
    Rust,
}

/// The sweeper a command-line name picks, compared without regard to ASCII
/// casing.
pub open spec fn sweeper_for_name(name: Seq<char>) -> Option<ArgSweeper> {
    if eq_ignore_ascii_case(name, "c-make"@) {
        Some(ArgSweeper::CMake)
    } else if eq_ignore_ascii_case(name, "node"@) {
        Some(ArgSweeper::Node)
    } else if eq_ignore_ascii_case(name, "rust"@) {
        Some(ArgSweeper::Rust)
    } else {
        None
    }
}

/// The position of the first `=`, or the string's length when it has none.
pub open spec fn first_eq(s: Seq<char>) -> int
    decreases s.len(),
{
    if s.len() == 0 {
        0
    } else if s.first() == '=' {
        0
    } else {
        1 + first_eq(s.drop_first())
    }
}

/// The sweeper name of an argument: everything before the first `=`, or the
/// whole argument when it has none.
pub open spec fn spec_arg_name(s: Seq<char>) -> Seq<char> {
    s.take(first_eq(s))
}

proof fn lemma_first_eq_is(s: Seq<char>, i: int)
    requires
        0 <= i <= s.len(),
        forall|j: int| 0 <= j < i ==> s[j] != '=',
        i < s.len() ==> s[i] == '=',
    ensures
        first_eq(s) == i,
    decreases i,
{
    if s.len() == 0 {
    } else if s.first() == '=' {
        assert(i == 0);
    } else {
        assert(i >= 1);
        let rest = s.drop_first();
        assert forall|j: int| 0 <= j < i - 1 implies rest[j] != '=' by {
            assert(rest[j] == s[j + 1]);
        }
        assert(i - 1 < rest.len() ==> rest[i - 1] == s[i]);
        lemma_first_eq_is(rest, i - 1);
    }
}

fn sweeper_from_name(name: &str) -> (r: Option<ArgSweeper>)
    ensures
        r == sweeper_for_name(name@),
{
    if str_eq_ignore_ascii_case(name, "c-make") {
        Some(ArgSweeper::CMake)
    } else if str_eq_ignore_ascii_case(name, "node") {
        Some(ArgSweeper::Node)
    } else if str_eq_ignore_ascii_case(name, "rust") {
        Some(ArgSweeper::Rust)
    } else {
        None
    }
}

impl ArgSweeper {
    /// Parses one `--sweeper` argument: the sweeper's name, optionally
    /// followed by `=` and sweeper-specific options. The name is matched
    /// without regard to ASCII casing; an unknown name is an error.
    pub fn parse_args(value: &str) -> (r: Result<(ArgSweeper, Option<String>), String>)
        ensures
            r is Ok <==> sweeper_for_name(spec_arg_name(value@)) is Some,
            r matches Ok(parsed) ==> {
                &&& Some(parsed.0) == sweeper_for_name(spec_arg_name(value@))
                &&& first_eq(value@) < value@.len() ==> (parsed.1 matches Some(opts) && opts@
                    == value@.skip(first_eq(value@) + 1))
                &&& first_eq(value@) == value@.len() ==> parsed.1 is None
            },
    {
        let n = value.unicode_len();
        let mut i: usize = 0;
        while i < n && value.get_char(i) != '='
            invariant
                0 <= i <= n,
                n == value@.len(),
                forall|j: int| 0 <= j < i ==> value@[j] != '=',
            decreases n - i,
        {
            i += 1;
        }
        proof {
            lemma_first_eq_is(value@, i as int);
        }
        let name = value.substring_char(0, i);
        match sweeper_from_name(name) {
            None => {
                let mut message = String::from_str("invalid variant: ");
                message.append(name);
                Err(message)
            },
            Some(sweeper) => {
                if i < n {
                    let options = value.substring_char(i + 1, n);
                    Ok((sweeper, Some(String::from_str(options))))
                } else {
                    Ok((sweeper, None))
                }
            },
        }
    }

    /// The sweepers a run registers when none are named: Node, Rust and
    /// CMake, each without options.
    pub fn default_configuration() -> (r: Vec<(ArgSweeper, Option<String>)>)
        ensures
            r@.len() == 3,
            r@[0].0 == ArgSweeper::Node && r@[0].1 is None,
            r@[1].0 == ArgSweeper::Rust && r@[1].1 is None,
            r@[2].0 == ArgSweeper::CMake && r@[2].1 is None,
    {
        let mut configuration: Vec<(ArgSweeper, Option<String>)> = Vec::new();
        configuration.push((ArgSweeper::Node, None));
        configuration.push((ArgSweeper::Rust, None));
        configuration.push((ArgSweeper::CMake, None));
        configuration
    }

    /// The concrete sweeper this choice stands for. The options are accepted
    /// for the interface's sake; no built-in sweeper takes any yet.
    pub fn create_from_options(&self, _options: Option<&str>) -> (r: SweeperKind)
        ensures
            self is CMake ==> r is CMake,
            self is Node ==> r is Node,
            self is Rust ==> r is Rust,
    {
        match self {
            ArgSweeper::CMake => SweeperKind::CMake(CMakeSweeper::new()),
            ArgSweeper::Node => SweeperKind::Node(NodeSweeper::new()),
            ArgSweeper::Rust => SweeperKind::Rust(RustSweeper::new()),
        }
    }
}

/// The command-line options of a run, as plain values.
#[derive(Debug)]
pub struct Args {
    /// The root directory to search for sweepable targets.
    pub root: Option<String>,
    /// Display the log in the terminal as a split screen.
    pub ui_logger: bool,
    /// Do not actually sweep anything; just simulate it.
    pub dry_run: bool,
    /// The sweepers to activate, each with its optional options.
    pub sweeper: Vec<(ArgSweeper, Option<String>)>,
    /// Do not add the default sweepers.
    pub sweeper_no_defaults: bool,
}

} // verus!
