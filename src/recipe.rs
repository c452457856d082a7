use vstd::prelude::*;

verus! {

/// A persisted recipe; `id` is assigned by the store on insert.
pub struct Recipe {
    pub id: i32,
    pub url: String,
    pub title: String,
    pub notes: String,
    pub images: Vec<String>,
}

/// What a client sends to create a recipe: every field but `id`.
pub struct Submission {
    pub url: String,
    pub title: String,
    pub notes: String,
    pub images: Vec<String>,
}

/// The body of a delete request.
pub struct DeleteRecipe {
    pub id: i32,
}

/// The mathematical value of a recipe.
pub struct RecipeView {
    pub id: int,
    pub url: Seq<char>,
    pub title: Seq<char>,
    pub notes: Seq<char>,
    pub images: Seq<Seq<char>>,
}

/// The mathematical value of a submission.
pub struct SubmissionView {
    pub url: Seq<char>,
    pub title: Seq<char>,
    pub notes: Seq<char>,
    pub images: Seq<Seq<char>>,
}

pub open spec fn strings_view(v: Seq<String>) -> Seq<Seq<char>> {
    v.map_values(|s: String| s@)
}

impl View for Recipe {
    type V = RecipeView;

    open spec fn view(&self) -> RecipeView {
        RecipeView {
            id: self.id as int,
            url: self.url@,
            title: self.title@,
            notes: self.notes@,
            images: strings_view(self.images@),
        }
    }
}

impl View for Submission {
    type V = SubmissionView;

    open spec fn view(&self) -> SubmissionView {
        SubmissionView {
            url: self.url@,
            title: self.title@,
            notes: self.notes@,
            images: strings_view(self.images@),
        }
    }
}

impl RecipeView {
    /// The fields of this recipe other than its id.
    pub open spec fn content(self) -> SubmissionView {
        SubmissionView { url: self.url, title: self.title, notes: self.notes, images: self.images }
    }
}

impl SubmissionView {
    /// The recipe that this submission becomes once the store gives it `id`.
    pub open spec fn with_id(self, id: int) -> RecipeView {
        RecipeView { id, url: self.url, title: self.title, notes: self.notes, images: self.images }
    }
}

/// A copy of a list of strings, element by element.
pub fn copy_strings(v: &Vec<String>) -> (r: Vec<String>)
    ensures
        strings_view(r@) == strings_view(v@),
{
    let mut r: Vec<String> = Vec::with_capacity(v.len());
    let mut i: usize = 0;
    while i < v.len()
        invariant
            i <= v@.len(),
            r@.len() == i,
            forall|j: int| 0 <= j < i ==> #[trigger] r@[j]@ == v@[j]@,
        decreases v@.len() - i,
    {
        r.push(v[i].clone());
        i = i + 1;
    }
    assert(strings_view(r@) =~= strings_view(v@));
    r
}

impl Recipe {
    /// A copy of this recipe.
    pub fn copy(&self) -> (r: Recipe)
        ensures
            r@ == self@,
    {
        Recipe {
            id: self.id,
            url: self.url.clone(),
            title: self.title.clone(),
            notes: self.notes.clone(),
            images: copy_strings(&self.images),
        }
    }

    /// The recipe made of `data` under the id `id`.
    pub fn from_submission(id: i32, data: &Submission) -> (r: Recipe)
        ensures
            r@ == data@.with_id(id as int),
    {
        Recipe {
            id,
            url: data.url.clone(),
            title: data.title.clone(),
            notes: data.notes.clone(),
            images: copy_strings(&data.images),
        }
    }
}

} // verus!
