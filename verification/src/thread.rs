//! The fetch-thread pipeline's typed result and its continuation rule.

use vstd::prelude::*;
use vstd::string::StringExecFns;

verus! {

/// The typed content of a thread-fetch response.
pub struct ThreadFetchResult {
    /// The forum's status code; only 0 grants the thread.
    pub status: i64,
    /// The thread title.
    pub title: String,
    /// The post bodies, in thread order, each a raw markup fragment.
    pub posts: Vec<String>,
}

/// What the fetch-thread pipeline does once the forum has answered.
pub enum ThreadStep {
    /// Non-zero status: the fetch is declined; the handler completes
    /// silently, with no reply, no transformation and no publication.
    Decline,
    /// Zero status: transform the joined posts and publish them under the
    /// thread's title.
    Publish { title: String, markup: String },
}

/// Separator inserted between consecutive posts before markup parsing.
pub open spec fn post_separator() -> Seq<char> {
    "\n<hr />\n"@
}

/// The first `n` post bodies joined with the separator.
pub open spec fn joined_posts_upto(posts: Seq<Seq<char>>, n: int) -> Seq<char>
    decreases n,
{
    if n <= 0 {
        Seq::<char>::empty()
    } else if n == 1 {
        posts[0]
    } else {
        joined_posts_upto(posts, n - 1) + post_separator() + posts[n - 1]
    }
}

/// The transformer input: all post bodies in order, with the separator
/// between consecutive posts, none before the first or after the last.
pub open spec fn joined_posts(posts: Seq<Seq<char>>) -> Seq<char> {
    joined_posts_upto(posts, posts.len() as int)
}

/// Joins the post bodies into the transformer input.
pub fn join_posts(posts: &Vec<String>) -> (s: String)
    ensures
        s@ == joined_posts(posts.deep_view()),
{
    let mut s = String::new();
    let mut i: usize = 0;
    while i < posts.len()
        invariant
            i <= posts@.len(),
            posts.deep_view().len() == posts@.len(),
            s@ == joined_posts_upto(posts.deep_view(), i as int),
        decreases posts@.len() - i,
    {
        if i > 0 {
            s.append("\n<hr />\n");
        }
        s.append(posts[i].as_str());
        proof {
            assert(posts.deep_view()[i as int] == posts@[i as int]@);
            if i == 0 {
                assert(Seq::<char>::empty() + posts.deep_view()[0] =~= posts.deep_view()[0]);
            }
        }
        i += 1;
    }
    s
}

/// Decides the fetch-thread pipeline's continuation from the forum's
/// answer: declined if and only if the status is non-zero; otherwise the
/// joined posts go forward under the thread's title.
pub fn thread_plan(result: ThreadFetchResult) -> (step: ThreadStep)
    ensures
        result.status != 0 <==> step is Decline,
        result.status == 0 ==> (step matches ThreadStep::Publish { title, markup } && title@
            == result.title@ && markup@ == joined_posts(result.posts.deep_view())),
{
    if result.status != 0 {
        ThreadStep::Decline
    } else {
        let markup = join_posts(&result.posts);
        ThreadStep::Publish { title: result.title, markup }
    }
}

} // verus!
