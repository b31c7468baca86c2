//! The newsletter issues: created once when an issue is authored, immutable
//! thereafter, and never deleted by this subsystem. The worker loads an
//! issue's content once per claimed task.

use vstd::prelude::*;

verus! {

/// One authored newsletter issue.
#[derive(Debug)]
pub struct NewsletterIssue {
    pub title: String,
    pub text_content: String,
    pub html_content: String,
}

/// Ghost image of an issue's content.
#[verifier::ext_equal]
pub struct IssueView {
    pub title: Seq<char>,
    pub text_content: Seq<char>,
    pub html_content: Seq<char>,
}

impl View for NewsletterIssue {
    type V = IssueView;

    open spec fn view(&self) -> IssueView {
        IssueView {
            title: self.title@,
            text_content: self.text_content@,
            html_content: self.html_content@,
        }
    }
}

/// One stored issue row.
#[derive(Debug)]
pub struct IssueRecord {
    pub newsletter_issue_id: u128,
    pub issue: NewsletterIssue,
}

/// The table an issue-row sequence denotes.
pub open spec fn issues_table(rows: Seq<IssueRecord>) -> Map<u128, IssueView>
    decreases rows.len(),
{
    if rows.len() == 0 {
        Map::empty()
    } else {
        issues_table(rows.drop_last()).insert(
            rows.last().newsletter_issue_id,
            rows.last().issue@,
        )
    }
}

/// An id occurs in an issue-row sequence.
pub open spec fn issue_rows_contain(rows: Seq<IssueRecord>, id: u128) -> bool {
    exists|i: int| 0 <= i < rows.len() && (#[trigger] rows[i]).newsletter_issue_id == id
}

/// The table's domain is exactly the ids of the rows.
proof fn lemma_issues_table_contains(rows: Seq<IssueRecord>, id: u128)
    ensures
        issues_table(rows).dom().contains(id) <==> issue_rows_contain(rows, id),
    decreases rows.len(),
{
    if rows.len() > 0 {
        lemma_issues_table_contains(rows.drop_last(), id);
        if issue_rows_contain(rows.drop_last(), id) {
            let i = choose|i: int|
                0 <= i < rows.drop_last().len() && (#[trigger] rows.drop_last()[i]).newsletter_issue_id
                    == id;
            assert(rows[i].newsletter_issue_id == id);
        }
        if rows.last().newsletter_issue_id == id {
            assert(rows[rows.len() - 1].newsletter_issue_id == id);
        }
        if issue_rows_contain(rows, id) && rows.last().newsletter_issue_id != id {
            let i = choose|i: int|
                0 <= i < rows.len() && (#[trigger] rows[i]).newsletter_issue_id == id;
            assert(rows.drop_last()[i].newsletter_issue_id == id);
        }
    }
}

/// No two rows share an id.
pub open spec fn issue_rows_distinct(rows: Seq<IssueRecord>) -> bool {
    forall|i: int, j: int|
        0 <= i < j < rows.len() ==> (#[trigger] rows[i]).newsletter_issue_id
            != (#[trigger] rows[j]).newsletter_issue_id
}

/// With distinct ids, the table binds each row's id to that row's content.
proof fn lemma_issues_table_get(rows: Seq<IssueRecord>, i: int)
    requires
        issue_rows_distinct(rows),
        0 <= i < rows.len(),
    ensures
        issues_table(rows).dom().contains(rows[i].newsletter_issue_id),
        issues_table(rows)[rows[i].newsletter_issue_id] == rows[i].issue@,
    decreases rows.len(),
{
    if i == rows.len() - 1 {
        assert(rows.last() == rows[i]);
    } else {
        assert(issue_rows_distinct(rows.drop_last())) by {
            assert(forall|a: int|
                0 <= a < rows.drop_last().len() ==> #[trigger] rows.drop_last()[a] == rows[a]);
        }
        lemma_issues_table_get(rows.drop_last(), i);
        assert(rows.drop_last()[i] == rows[i]);
        assert(rows.last().newsletter_issue_id != rows[i].newsletter_issue_id);
    }
}

/// The store of authored issues, keyed by issue id.
pub struct IssueStore {
    rows: Vec<IssueRecord>,
}

impl View for IssueStore {
    type V = Map<u128, IssueView>;

    closed spec fn view(&self) -> Map<u128, IssueView> {
        issues_table(self.rows@)
    }
}

/// Why an issue could not be stored.
#[derive(Debug, PartialEq, Eq, Structural)]
pub enum IssueStoreError {
    /// An issue with this id already exists; issues are immutable once
    /// created.
    DuplicateIssueId,
}

impl IssueStore {
    /// Internal invariant: at most one row per issue id.
    pub closed spec fn wf(&self) -> bool {
        issue_rows_distinct(self.rows@)
    }

    /// An empty store.
    pub fn new() -> (r: IssueStore)
        ensures
            r.wf(),
            r@ == Map::<u128, IssueView>::empty(),
    {
        IssueStore { rows: Vec::new() }
    }

    /// Loads an issue's content by id; pure read.
    pub fn get_issue(&self, newsletter_issue_id: u128) -> (r: Option<&NewsletterIssue>)
        requires
            self.wf(),
        ensures
            r is Some <==> self@.dom().contains(newsletter_issue_id),
            r matches Some(issue) ==> issue@ == self@[newsletter_issue_id],
    {
        let mut i: usize = 0;
        while i < self.rows.len()
            invariant
                self.wf(),
                i <= self.rows@.len(),
                forall|j: int|
                    0 <= j < i ==> (#[trigger] self.rows@[j]).newsletter_issue_id
                        != newsletter_issue_id,
            decreases self.rows@.len() - i,
        {
            if self.rows[i].newsletter_issue_id == newsletter_issue_id {
                proof {
                    lemma_issues_table_get(self.rows@, i as int);
                }
                return Some(&self.rows[i].issue);
            }
            i = i + 1;
        }
        proof {
            lemma_issues_table_contains(self.rows@, newsletter_issue_id);
        }
        None
    }

    /// Creates an issue under a fresh id. Refused — and the store left
    /// unchanged — when the id is already taken: issues are never
    /// overwritten.
    pub fn insert_issue(&mut self, newsletter_issue_id: u128, issue: NewsletterIssue) -> (r:
        Result<(), IssueStoreError>)
        requires
            old(self).wf(),
        ensures
            final(self).wf(),
            r is Ok <==> !old(self)@.dom().contains(newsletter_issue_id),
            r is Ok ==> final(self)@ == old(self)@.insert(newsletter_issue_id, issue@),
            r is Err ==> final(self)@ == old(self)@ && r == Err::<(), IssueStoreError>(
                IssueStoreError::DuplicateIssueId,
            ),
    {
        let mut i: usize = 0;
        while i < self.rows.len()
            invariant
                self.wf(),
                i <= self.rows@.len(),
                forall|j: int|
                    0 <= j < i ==> (#[trigger] self.rows@[j]).newsletter_issue_id
                        != newsletter_issue_id,
            decreases self.rows@.len() - i,
        {
            if self.rows[i].newsletter_issue_id == newsletter_issue_id {
                proof {
                    lemma_issues_table_contains(self.rows@, newsletter_issue_id);
                    assert(self.rows@[i as int].newsletter_issue_id == newsletter_issue_id);
                }
                return Err(IssueStoreError::DuplicateIssueId);
            }
            i = i + 1;
        }
        proof {
            lemma_issues_table_contains(self.rows@, newsletter_issue_id);
        }
        let row = IssueRecord { newsletter_issue_id, issue };
        self.rows.push(row);
        proof {
            assert(self.rows@.drop_last() =~= old(self).rows@);
            assert(self.rows@.last() == row);
        }
        Ok(())
    }
}

} // verus!
