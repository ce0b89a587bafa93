//! The command grammar and the dispatcher's routing rules.
//!
//! The bot understands two chat commands: `/help`, and `/tsdm <argument>`.
//! A forum-command argument made entirely of decimal digits is a thread
//! identifier; any other argument is a paginated search, split into a page
//! token and a keyword.

use vstd::prelude::*;
use vstd::string::StrSliceExecFns;
use vstd::string::StringExecFns;

verus! {

/// A recognized chat command.
pub enum Command {
    /// `/help`: reply with the command descriptions.
    Help,
    /// `/tsdm <argument>`: fetch a thread or search the forum.
    Tsdm { argument: String },
}

/// The route the dispatcher takes for a forum-command argument.
pub enum ForumRoute {
    /// The argument is a numeric thread identifier: fetch and republish it.
    FetchThread { thread_id: String },
    /// Anything else is a search with a page token and a keyword.
    SearchForum { page: String, keyword: String },
}

pub open spec fn is_ascii_digit(c: char) -> bool {
    48 <= c as u32 && c as u32 <= 57
}

/// A non-empty string of decimal digits: the shape of a thread identifier.
pub open spec fn all_digits(s: Seq<char>) -> bool {
    s.len() > 0 && forall|i: int| 0 <= i < s.len() ==> is_ascii_digit(#[trigger] s[i])
}

/// Index of the first space in `s`, or `s.len()` if `s` has none.
pub open spec fn first_space(s: Seq<char>) -> int
    decreases s.len(),
{
    if s.len() == 0 {
        0
    } else if s[0] == ' ' {
        0
    } else {
        1 + first_space(s.drop_first())
    }
}

/// The page token of a search argument: the text between a leading `=` and
/// the first space, or `"1"` when the argument carries no page marker or no
/// space follows the marker.
pub open spec fn page_of(arg: Seq<char>) -> Seq<char> {
    if arg.len() > 0 && arg[0] == '=' && first_space(arg) < arg.len() {
        arg.subrange(1, first_space(arg))
    } else {
        seq!['1']
    }
}

/// The keyword of a search argument: the text after the first space when a
/// leading `=` carries a page token, the text after the `=` when no space
/// follows it, and the whole argument otherwise.
pub open spec fn keyword_of(arg: Seq<char>) -> Seq<char> {
    if arg.len() > 0 && arg[0] == '=' {
        if first_space(arg) < arg.len() {
            arg.subrange(first_space(arg) + 1, arg.len() as int)
        } else {
            arg.subrange(1, arg.len() as int)
        }
    } else {
        arg
    }
}

proof fn lemma_first_space_at(s: Seq<char>, i: int)
    requires
        0 <= i <= s.len(),
        forall|k: int| 0 <= k < i ==> s[k] != ' ',
        i < s.len() ==> s[i] == ' ',
    ensures
        first_space(s) == i,
    decreases s.len(),
{
    if i == 0 {
        // Either the string is empty or its first character is the space.
    } else {
        assert(s[0] != ' ');
        assert(forall|k: int| 0 <= k < i - 1 ==> s.drop_first()[k] == s[k + 1]);
        lemma_first_space_at(s.drop_first(), i - 1);
    }
}

fn is_all_digits(s: &str) -> (b: bool)
    ensures
        b == all_digits(s@),
{
    let n = s.unicode_len();
    if n == 0 {
        return false;
    }
    let mut i: usize = 0;
    while i < n
        invariant
            i <= n,
            n == s@.len(),
            forall|k: int| 0 <= k < i ==> is_ascii_digit(#[trigger] s@[k]),
        decreases n - i,
    {
        let c = s.get_char(i);
        let u = c as u32;
        if u < 48 || u > 57 {
            assert(!is_ascii_digit(s@[i as int]));
            return false;
        }
        i += 1;
    }
    true
}

fn find_space(s: &str) -> (j: usize)
    ensures
        j == first_space(s@),
        j <= s@.len(),
        s@.len() > 0 && s@[0] != ' ' ==> j >= 1,
{
    let n = s.unicode_len();
    let mut i: usize = 0;
    while i < n
        invariant
            i <= n,
            n == s@.len(),
            forall|k: int| 0 <= k < i ==> s@[k] != ' ',
        decreases n - i,
    {
        if s.get_char(i) == ' ' {
            proof {
                lemma_first_space_at(s@, i as int);
            }
            return i;
        }
        i += 1;
    }
    proof {
        lemma_first_space_at(s@, n as int);
    }
    n
}

/// Routes a forum-command argument.
///
/// A non-empty, all-digit argument is taken as a thread identifier and never
/// reaches the search path.  Every other argument becomes a search whose page
/// and keyword follow `page_of` and `keyword_of`.
pub fn classify_argument(argument: &str) -> (route: ForumRoute)
    ensures
        all_digits(argument@) ==> (route matches ForumRoute::FetchThread { thread_id } &&
            thread_id@ == argument@),
        !all_digits(argument@) ==> (route matches ForumRoute::SearchForum { page, keyword } &&
            page@ == page_of(argument@) && keyword@ == keyword_of(argument@)),
{
    if is_all_digits(argument) {
        ForumRoute::FetchThread { thread_id: String::from_str(argument) }
    } else if argument.unicode_len() > 0 && argument.get_char(0) == '=' {
        let n = argument.unicode_len();
        let j = find_space(argument);
        if j < n {
            let page = String::from_str(argument.substring_char(1, j));
            let keyword = String::from_str(argument.substring_char(j + 1, n));
            ForumRoute::SearchForum { page, keyword }
        } else {
            proof {
                reveal_strlit("1");
                assert(("1")@ =~= seq!['1']);
            }
            let page = String::from_str("1");
            let keyword = String::from_str(argument.substring_char(1, n));
            ForumRoute::SearchForum { page, keyword }
        }
    } else {
        proof {
            reveal_strlit("1");
            assert(("1")@ =~= seq!['1']);
        }
        ForumRoute::SearchForum {
            page: String::from_str("1"),
            keyword: String::from_str(argument),
        }
    }
}

/// The static reply to `/help`: the global note and one line for each of the
/// two commands, in the platform's customary rendering.
pub open spec fn help_message() -> Seq<char> {
    "These commands are supported:\n\n/help — display this text.\n/tsdm — TSDM related features"@
}

/// Builds the `/help` reply text.
pub fn help_text() -> (s: String)
    ensures
        s@ == help_message(),
{
    String::from_str(
        "These commands are supported:\n\n/help — display this text.\n/tsdm — TSDM related features",
    )
}

} // verus!
