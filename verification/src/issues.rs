//! Issue store: the durable log of accepted newsletter issues. An issue is
//! created once per accepted publish command, is immutable thereafter, and
//! is never deleted (audit trail).

use vstd::prelude::*;

verus! {

/// One newsletter publication event: a title and two body renderings.
pub struct Issue {
    pub id: u128,
    pub title: String,
    pub text_body: String,
    pub html_body: String,
}

/// The mathematical value of an [`Issue`].
#[verifier::ext_equal]
pub struct IssueView {
    pub id: u128,
    pub title: Seq<char>,
    pub text_body: Seq<char>,
    pub html_body: Seq<char>,
}

impl View for Issue {
    type V = IssueView;

    open spec fn view(&self) -> IssueView {
        IssueView {
            id: self.id,
            title: self.title@,
            text_body: self.text_body@,
            html_body: self.html_body@,
        }
    }
}

impl Issue {
    /// An exact copy of the issue.
    pub fn duplicate(&self) -> (r: Issue)
        ensures
            r@ == self@,
    {
        Issue {
            id: self.id,
            title: self.title.clone(),
            text_body: self.text_body.clone(),
            html_body: self.html_body.clone(),
        }
    }
}

/// Index of the first issue with the given id, searching from position `i`.
pub open spec fn find_issue_from(s: Seq<IssueView>, id: u128, i: int) -> Option<int>
    decreases s.len() - i,
{
    if i < 0 || i >= s.len() {
        None
    } else if s[i].id == id {
        Some(i)
    } else {
        find_issue_from(s, id, i + 1)
    }
}

/// Index of the first issue with the given id, if any.
pub open spec fn find_issue(s: Seq<IssueView>, id: u128) -> Option<int> {
    find_issue_from(s, id, 0)
}

/// The durable issue log.
pub struct IssueStore {
    issues: Vec<Issue>,
}

impl View for IssueStore {
    type V = Seq<IssueView>;

    closed spec fn view(&self) -> Seq<IssueView> {
        self.issues@.map_values(|i: Issue| i@)
    }
}

impl IssueStore {
    /// An empty log.
    pub fn new() -> (r: IssueStore)
        ensures
            r@ == Seq::<IssueView>::empty(),
    {
        let r = IssueStore { issues: Vec::new() };
        proof {
            assert(r@ =~= Seq::<IssueView>::empty());
        }
        r
    }

    /// Appends a freshly accepted issue to the log.
    pub fn insert(&mut self, issue: Issue)
        ensures
            final(self)@ == old(self)@.push(issue@),
    {
        let ghost v = issue@;
        self.issues.push(issue);
        proof {
            assert(final(self)@ =~= old(self)@.push(v));
        }
    }

    /// A copy of the first issue with the given id, if any.
    pub fn get(&self, id: u128) -> (r: Option<Issue>)
        ensures
            match find_issue(self@, id) {
                Some(i) => r matches Some(issue) && issue@ == self@[i],
                None => r is None,
            },
    {
        let n = self.issues.len();
        let mut i: usize = 0;
        while i < n
            invariant
                n == self@.len(),
                i <= n,
                find_issue(self@, id) == find_issue_from(self@, id, i as int),
            decreases n - i,
        {
            if self.issues[i].id == id {
                return Some(self.issues[i].duplicate());
            }
            i = i + 1;
        }
        None
    }

    /// How many issues the log holds.
    pub fn issue_count(&self) -> (r: usize)
        ensures
            r == self@.len(),
    {
        self.issues.len()
    }
}

} // verus!
