//! The comment record: the sole domain entity.

use vstd::prelude::*;

verus! {

/// Mathematical view of a comment: the id and timestamp as integers, the two
/// text fields as character sequences.
pub struct CommentView {
    pub id: u128,
    pub name: Seq<char>,
    pub text: Seq<char>,
    pub created_at: i64,
}

/// The views of a sequence of comments.
pub open spec fn views(s: Seq<Comment>) -> Seq<CommentView> {
    s.map_values(|c: Comment| c@)
}

/// A stored comment.
///
/// `id` is generated by the store at creation time and never reused.
/// `created_at` is a caller-supplied UTC timestamp in milliseconds since the
/// epoch; it is used only as the sort key when listing.
pub struct Comment {
    pub id: u128,
    pub name: String,
    pub text: String,
    pub created_at: i64,
}

impl View for Comment {
    type V = CommentView;

    open spec fn view(&self) -> CommentView {
        CommentView {
            id: self.id,
            name: self.name@,
            text: self.text@,
            created_at: self.created_at,
        }
    }
}

impl Clone for Comment {
    /// A clone carries exactly the fields of the original.
    fn clone(&self) -> (r: Self)
        ensures
            r@ == self@,
    {
        Comment {
            id: self.id,
            name: self.name.clone(),
            text: self.text.clone(),
            created_at: self.created_at,
        }
    }
}

} // verus!
