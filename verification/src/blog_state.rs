//! A blog post's state management: a draft must be reviewed and approved
//! before its content becomes visible, and a state never moves backwards.

use vstd::prelude::*;
use vstd::string::StringExecFns;

verus! {

/// Where a post stands in its editorial workflow.
#[derive(Debug, Clone, Copy, PartialEq, Eq, Structural)]
pub enum Status {
    Draft,
    PendingReview,
    Published,
}

/// A post whose content is only shown once it has been published.
pub struct Post {
    status: Status,
    content: String,
}

impl Post {
    /// Where the post stands.
    pub closed spec fn spec_status(&self) -> Status {
        self.status
    }

    /// The text stored so far, shown or not.
    pub closed spec fn spec_content(&self) -> Seq<char> {
        self.content@
    }

    /// A new post starts as an empty draft.
    pub fn new() -> (r: Post)
        ensures
            r.spec_status() is Draft,
            r.spec_content() == Seq::<char>::empty(),
    {
        Post { status: Status::Draft, content: String::new() }
    }

    /// Append text to the post's body; the workflow state is untouched.
    pub fn add_text(&mut self, text: &str)
        ensures
            final(self).spec_content() == old(self).spec_content() + text@,
            final(self).spec_status() == old(self).spec_status(),
    {
        self.content.append(text);
    }

    /// The visible content: the body once published, and nothing before.
    pub fn content(&self) -> (r: &str)
        ensures
            self.spec_status() is Published ==> r@ == self.spec_content(),
            !(self.spec_status() is Published) ==> r@ == Seq::<char>::empty(),
    {
        match self.status {
            Status::Published => self.content.as_str(),
            _ => {
                let empty = "";
                proof {
                    reveal_strlit("");
                    assert(empty@ =~= Seq::<char>::empty());
                }
                empty
            },
        }
    }

    /// Ask for review: a draft moves to pending review; any other state is
    /// unchanged, so a state never moves backwards.
    pub fn request_review(&mut self)
        ensures
            old(self).spec_status() is Draft ==> final(self).spec_status() is PendingReview,
            !(old(self).spec_status() is Draft) ==> final(self).spec_status() == old(
                self,
            ).spec_status(),
            final(self).spec_content() == old(self).spec_content(),
    {
        match self.status {
            Status::Draft => {
                self.status = Status::PendingReview;
            },
            _ => {},
        }
    }

    /// Approve the post: a pending review becomes published; any other state
    /// is unchanged.
    pub fn approve(&mut self)
        ensures
            old(self).spec_status() is PendingReview ==> final(self).spec_status() is Published,
            !(old(self).spec_status() is PendingReview) ==> final(self).spec_status() == old(
                self,
            ).spec_status(),
            final(self).spec_content() == old(self).spec_content(),
    {
        match self.status {
            Status::PendingReview => {
                self.status = Status::Published;
            },
            _ => {},
        }
    }
}

} // verus!
