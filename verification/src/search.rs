//! Search results: the reply line format and the reply for each outcome.

use vstd::prelude::*;
use vstd::string::StringExecFns;
use crate::text::dec_digits;
use crate::text::padded2_digits;
use crate::text::u64_to_dec;
use crate::text::u64_to_padded2;

verus! {

/// One search hit: the fields of the forum's search response that the reply
/// shows.
pub struct SearchResultItem {
    pub title: String,
    pub thread_id: u32,
    pub forum_name: String,
}

/// An outbound chat reply.
pub struct Reply {
    /// The message body.
    pub text: String,
    /// Whether the body is rendered as rich text (links, code spans).
    pub rich_text: bool,
    /// Whether the reply is threaded to the triggering message.
    pub threaded: bool,
}

/// One reply line: `[` then the two-digit 1-based index, then `] `, the
/// thread identifier in a code span, the forum name in parentheses, a space,
/// and the title.
pub open spec fn result_line(index: nat, item: SearchResultItem) -> Seq<char> {
    "["@ + padded2_digits(index) + "] <code>"@ + dec_digits(item.thread_id as nat) + "</code>("@
        + item.forum_name@ + ") "@ + item.title@
}

/// The first `n` reply lines, joined with newlines.
pub open spec fn results_text_upto(items: Seq<SearchResultItem>, n: int) -> Seq<char>
    decreases n,
{
    if n <= 0 {
        Seq::<char>::empty()
    } else if n == 1 {
        result_line(1, items[0])
    } else {
        results_text_upto(items, n - 1) + "\n"@ + result_line(n as nat, items[n - 1])
    }
}

/// The whole search reply body.
pub open spec fn results_text(items: Seq<SearchResultItem>) -> Seq<char> {
    results_text_upto(items, items.len() as int)
}

/// The fixed prefix of every search-failure reply.
pub open spec fn search_failure_prefix() -> Seq<char> {
    "Failed to search: "@
}

fn format_line(index: u64, item: &SearchResultItem) -> (s: String)
    requires
        index >= 1,
    ensures
        s@ == result_line(index as nat, *item),
{
    let mut s = String::from_str("[");
    s.append(u64_to_padded2(index).as_str());
    s.append("] <code>");
    s.append(u64_to_dec(item.thread_id as u64).as_str());
    s.append("</code>(");
    s.append(item.forum_name.as_str());
    s.append(") ");
    s.append(item.title.as_str());
    s
}

/// Renders the search reply body: one line per hit, 1-indexed within the
/// current page, lines joined with newlines.
pub fn format_search_results(items: &Vec<SearchResultItem>) -> (s: String)
    ensures
        s@ == results_text(items@),
{
    let mut s = String::new();
    let mut i: usize = 0;
    while i < items.len()
        invariant
            i <= items@.len(),
            s@ == results_text_upto(items@, i as int),
        decreases items@.len() - i,
    {
        if i > 0 {
            s.append("\n");
        }
        let line = format_line((i as u64) + 1, &items[i]);
        s.append(line.as_str());
        proof {
            if i == 0 {
                assert(Seq::<char>::empty() + result_line(1, items@[0]) =~= result_line(
                    1,
                    items@[0],
                ));
            }
        }
        i += 1;
    }
    s
}

/// Builds the reply for a search outcome: the rich-text result list on
/// success; on any failure, a plain-text message made of the fixed prefix
/// and the error's description.  Both replies are threaded.
pub fn search_reply(outcome: Result<Vec<SearchResultItem>, String>) -> (r: Reply)
    ensures
        outcome matches Ok(items) ==> r.text@ == results_text(items@) && r.rich_text
            && r.threaded,
        outcome matches Err(desc) ==> r.text@ == search_failure_prefix() + desc@ && !r.rich_text
            && r.threaded,
{
    match outcome {
        Ok(items) => Reply {
            text: format_search_results(&items),
            rich_text: true,
            threaded: true,
        },
        Err(desc) => {
            let mut text = String::from_str("Failed to search: ");
            text.append(desc.as_str());
            Reply { text, rich_text: false, threaded: true }
        },
    }
}

/// Law: a search-failure reply begins with the fixed prefix, whatever the
/// error's description says.
pub proof fn lemma_search_failure_reply_has_prefix(desc: Seq<char>)
    ensures
        (search_failure_prefix() + desc).len() >= search_failure_prefix().len(),
        (search_failure_prefix() + desc).subrange(
            0,
            search_failure_prefix().len() as int,
        ) == search_failure_prefix(),
{
    assert((search_failure_prefix() + desc).subrange(0, search_failure_prefix().len() as int)
        =~= search_failure_prefix());
}

} // verus!
