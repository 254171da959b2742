//! A directory held in memory: the texts of its files by name.

use crate::keyed::{
    distinct_keys, has_key, is_first, lemma_first_exists, lemma_with_value, lemma_without_key,
    place_of, value_of, with_value, without_key,
};
use crate::text::same_text;
use vstd::prelude::*;

verus! {

/// The files of a directory: each name with the text of its file.
pub type Files = Seq<(Seq<char>, Seq<char>)>;

/// The names and texts of a list of files.
pub open spec fn files_view(files: Seq<(String, String)>) -> Files {
    files.map_values(|f: (String, String)| (f.0@, f.1@))
}

/// A directory of text files. No name occurs twice; the files are listed in
/// the order in which their names came in.
#[derive(Debug)]
pub struct Directory {
    files: Vec<(String, String)>,
}

impl View for Directory {
    type V = Files;

    closed spec fn view(&self) -> Files {
        files_view(self.files@)
    }
}

impl Directory {
    #[verifier::type_invariant]
    spec fn names_are_distinct(&self) -> bool {
        distinct_keys(files_view(self.files@))
    }

    /// The directory without files.
    pub fn new() -> (r: Directory)
        ensures
            r@ == Seq::<(Seq<char>, Seq<char>)>::empty(),
    {
        let r = Directory { files: Vec::new() };
        assert(r@ =~= Seq::<(Seq<char>, Seq<char>)>::empty());
        r
    }

    /// The files in their order; no two of them have one name.
    pub fn files(&self) -> (r: &Vec<(String, String)>)
        ensures
            files_view(r@) == self@,
            distinct_keys(self@),
    {
        proof {
            use_type_invariant(self);
        }
        &self.files
    }

    /// The place of the file `name`, if there is one.
    fn find(files: &Vec<(String, String)>, name: &str) -> (r: Option<usize>)
        ensures
            match r {
                Some(i) => is_first(files_view(files@), name@, i as int) && has_key(
                    files_view(files@),
                    name@,
                ) && place_of(files_view(files@), name@) == i,
                None => !has_key(files_view(files@), name@),
            },
    {
        let ghost model = files_view(files@);
        let mut i: usize = 0;
        while i < files.len()
            invariant
                i <= files.len(),
                model == files_view(files@),
                forall|j: int| 0 <= j < i ==> (#[trigger] model[j]).0 != name@,
            decreases files.len() - i,
        {
            if same_text(files[i].0.as_str(), name) {
                proof {
                    assert(model[i as int].0 == name@);
                    assert(is_first(model, name@, i as int));
                    lemma_first_exists(model, name@);
                }
                return Some(i);
            }
            i += 1;
        }
        None
    }

    /// The text of the file `name`, if there is one.
    pub fn read(&self, name: &str) -> (r: Option<&String>)
        ensures
            match r {
                Some(text) => value_of(self@, name@) == Some(text@),
                None => value_of(self@, name@) is None,
            },
    {
        match Directory::find(&self.files, name) {
            Some(i) => {
                assert(self@[i as int].1 == self.files[i as int].1@);
                Some(&self.files[i].1)
            },
            None => None,
        }
    }

    /// Writes the file `name`: a file of that name is overwritten where it
    /// stands, a new file comes last.
    pub fn write(&mut self, name: String, text: String)
        ensures
            final(self)@ == with_value(old(self)@, name@, text@),
    {
        proof {
            use_type_invariant(&*self);
        }
        let mut files: Vec<(String, String)> = Vec::new();
        core::mem::swap(&mut self.files, &mut files);
        let ghost before = files_view(files@);
        match Directory::find(&files, name.as_str()) {
            Some(i) => {
                files[i] = (name, text);
            },
            None => {
                files.push((name, text));
            },
        }
        proof {
            assert(files_view(files@) =~= with_value(before, name@, text@));
            lemma_with_value(before, name@, text@);
        }
        self.files = files;
    }

    /// Removes the file `name` and says whether there was one.
    pub fn remove(&mut self, name: &str) -> (r: bool)
        ensures
            final(self)@ == without_key(old(self)@, name@),
            r == has_key(old(self)@, name@),
    {
        proof {
            use_type_invariant(&*self);
        }
        let mut files: Vec<(String, String)> = Vec::new();
        core::mem::swap(&mut self.files, &mut files);
        let ghost before = files_view(files@);
        let found = Directory::find(&files, name);
        let r = match found {
            Some(i) => {
                let _ = files.remove(i);
                true
            },
            None => false,
        };
        proof {
            assert(files_view(files@) =~= without_key(before, name@));
            lemma_without_key(before, name@);
        }
        self.files = files;
        r
    }
}

} // verus!
