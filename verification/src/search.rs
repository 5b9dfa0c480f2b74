//! The path resolver: where a file named on the command line is looked
//! for. What is on disk is probed by the caller, who hands in the
//! answers.

use vstd::prelude::*;
use vstd::string::*;
use crate::config::{same_text, text_views};

verus! {

/// The character between the components of a path.
pub const SEPARATOR: char = '/';

/// The path of `name` seen from directory `directory`: an absolute name
/// stands for itself, any other is put behind the directory, with a
/// separator between the two unless the directory is empty or ends in
/// one.
pub open spec fn joined(directory: Seq<char>, name: Seq<char>) -> Seq<char> {
    if name.len() > 0 && name[0] == SEPARATOR {
        name
    } else if directory.len() == 0 || directory.last() == SEPARATOR {
        directory + name
    } else {
        directory + seq![SEPARATOR] + name
    }
}

/// The places where a file is looked for, in the order in which they
/// are tried: the name as it is, then the name seen from each search
/// directory.
pub open spec fn candidate_paths(directories: Seq<Seq<char>>, name: Seq<char>) -> Seq<Seq<char>> {
    seq![name] + Seq::new(directories.len(), |i: int| joined(directories[i], name))
}

/// The position of the first `true` among `answers` at or after `from`,
/// or the length of `answers` if there is none.
pub open spec fn first_found(answers: Seq<bool>, from: int) -> int
    decreases answers.len() - from,
{
    if from < 0 || from >= answers.len() {
        answers.len() as int
    } else if answers[from] {
        from
    } else {
        first_found(answers, from + 1)
    }
}

/// The search directories.
#[derive(Debug)]
pub struct Paths {
    pub paths: Vec<String>,
}

impl View for Paths {
    type V = Seq<Seq<char>>;

    open spec fn view(&self) -> Seq<Seq<char>> {
        text_views(self.paths@)
    }
}

/// Puts `name` behind `directory` as `joined` says.
pub fn join(directory: &str, name: &str) -> (path: String)
    ensures
        path@ == joined(directory@, name@),
{
    let name_len = name.unicode_len();
    let directory_len = directory.unicode_len();
    if name_len > 0 && name.get_char(0) == SEPARATOR {
        String::from_str(name)
    } else if directory_len == 0 || directory.get_char(directory_len - 1) == SEPARATOR {
        String::from_str(directory).concat(name)
    } else {
        proof {
            reveal_strlit("/");
            assert("/"@ =~= seq![SEPARATOR]);
        }
        String::from_str(directory).concat("/").concat(name)
    }
}

impl Paths {
    /// No search directories.
    pub fn new() -> (paths: Paths)
        ensures
            paths@ == Seq::<Seq<char>>::empty(),
    {
        let paths = Paths { paths: Vec::new() };
        assert(paths@ =~= Seq::<Seq<char>>::empty());
        paths
    }

    /// Whether a directory is recorded.
    pub fn contains(&self, pathname: &str) -> (found: bool)
        ensures
            found == self@.contains(pathname@),
    {
        let mut i: usize = 0;
        while i < self.paths.len()
            invariant
                i <= self.paths@.len(),
                forall|j: int| 0 <= j < i ==> self@[j] != pathname@,
            decreases self.paths@.len() - i,
        {
            if same_text(self.paths[i].as_str(), pathname) {
                assert(self@[i as int] == pathname@);
                return true;
            }
            i += 1;
        }
        false
    }

    /// Records `pathname` as a search directory if it is one:
    /// `is_directory` says whether it exists as a directory. A directory
    /// that is recorded already is not recorded again.
    pub fn add(&mut self, pathname: &String, is_directory: bool)
        ensures
            final(self)@ == if is_directory && !old(self)@.contains(pathname@) {
                old(self)@.push(pathname@)
            } else {
                old(self)@
            },
    {
        if is_directory && !self.contains(pathname.as_str()) {
            self.paths.push(pathname.clone());
            assert(self@ =~= old(self)@.push(pathname@));
        }
    }

    /// The places where `filename` is looked for, in the order in which
    /// they are tried.
    pub fn candidates(&self, filename: &String) -> (places: Vec<String>)
        ensures
            text_views(places@) == candidate_paths(self@, filename@),
    {
        let mut places: Vec<String> = Vec::new();
        places.push(filename.clone());
        let mut i: usize = 0;
        assert(text_views(places@) =~= seq![filename@] + Seq::new(
            0,
            |k: int| joined(self@[k], filename@),
        ));
        while i < self.paths.len()
            invariant
                i <= self.paths@.len(),
                text_views(places@) == seq![filename@] + Seq::new(
                    i as nat,
                    |k: int| joined(self@[k], filename@),
                ),
            decreases self.paths@.len() - i,
        {
            let ghost before = text_views(places@);
            places.push(join(self.paths[i].as_str(), filename.as_str()));
            assert(text_views(places@) =~= before.push(joined(self@[i as int], filename@)));
            i += 1;
            assert(text_views(places@) =~= seq![filename@] + Seq::new(
                i as nat,
                |k: int| joined(self@[k], filename@),
            ));
        }
        assert(text_views(places@) =~= candidate_paths(self@, filename@));
        places
    }

    /// The path of `filename`: the first of the places where it is
    /// looked for that is a regular file, if there is one. `is_file[i]`
    /// says whether the place at position `i` of `candidates` is a
    /// regular file; a place without an answer counts as none.
    pub fn find_file(&self, filename: &String, is_file: &Vec<bool>) -> (path: Option<String>)
        ensures
            path.is_some() == (first_found(is_file@, 0) < is_file@.len() && first_found(
                is_file@,
                0,
            ) < candidate_paths(self@, filename@).len()),
            path matches Some(found) ==> found@ == candidate_paths(self@, filename@)[first_found(
                is_file@,
                0,
            )],
    {
        let mut i: usize = 0;
        while i < is_file.len()
            invariant
                i <= is_file@.len(),
                first_found(is_file@, i as int) == first_found(is_file@, 0),
            decreases is_file@.len() - i,
        {
            if is_file[i] {
                if i == 0 {
                    return Some(filename.clone());
                } else if i - 1 < self.paths.len() {
                    return Some(join(self.paths[i - 1].as_str(), filename.as_str()));
                } else {
                    return None;
                }
            }
            i += 1;
        }
        None
    }
}

} // verus!
