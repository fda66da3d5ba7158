//! Processing options, aggregate size statistics, and output-path
//! computation.  The directory walking and file reading/writing around these
//! live with the caller; this module holds the decisions: which options are
//! in force, where a given input's output goes, and how per-file sizes fold
//! into totals.

use vstd::prelude::*;

use crate::paths::{
    file_name_of, file_stem_of, find_last, join_path, last_index_of, lemma_last_index_of,
    parent_of, trim_path_end, trim_tail,
};

verus! {

/// Aggregate counters over one processing run.
#[derive(Clone, Debug)]
pub struct ProcessingStats {
    pub files_processed: usize,
    pub input_size: usize,
    pub output_size: usize,
}

impl Default for ProcessingStats {
    /// Fresh counters, all zero.
    fn default() -> (r: Self)
        ensures
            r.files_processed == 0,
            r.input_size == 0,
            r.output_size == 0,
    {
        ProcessingStats { files_processed: 0, input_size: 0, output_size: 0 }
    }
}

impl ProcessingStats {
    /// Folds one processed file's sizes into the totals.
    pub fn record_file(&mut self, input_size: usize, output_size: usize)
        requires
            old(self).files_processed + 1 <= usize::MAX,
            old(self).input_size + input_size <= usize::MAX,
            old(self).output_size + output_size <= usize::MAX,
        ensures
            final(self).files_processed == old(self).files_processed + 1,
            final(self).input_size == old(self).input_size + input_size,
            final(self).output_size == old(self).output_size + output_size,
    {
        self.files_processed = self.files_processed + 1;
        self.input_size = self.input_size + input_size;
        self.output_size = self.output_size + output_size;
    }
}

/// Why an output path could not be computed.
#[derive(PartialEq, Eq, Structural, Clone, Copy, Debug)]
pub enum OutputPathError {
    /// The input path is empty.
    EmptyInput,
    /// The input path is the filesystem root.
    RootInput,
    /// A file input has no stem: its final component is missing or is a
    /// parent-directory component.
    NoFileStem,
    /// A directory input has no name: its final component is missing or is
    /// a parent-directory component.
    NoDirectoryName,
}

impl OutputPathError {
    /// A human-readable description of the error.
    pub fn message(&self) -> (r: String)
        ensures
            *self is EmptyInput ==> r@ == "Input path cannot be empty"@,
            *self is RootInput ==> r@ == "Cannot use root directory as input path"@,
            *self is NoFileStem ==> r@ == "Failed to get file stem"@,
            *self is NoDirectoryName ==> r@ == "Failed to get directory name"@,
    {
        match self {
            OutputPathError::EmptyInput => String::from_str("Input path cannot be empty"),
            OutputPathError::RootInput => String::from_str(
                "Cannot use root directory as input path",
            ),
            OutputPathError::NoFileStem => String::from_str("Failed to get file stem"),
            OutputPathError::NoDirectoryName => String::from_str("Failed to get directory name"),
        }
    }
}

/// The error for an input whose final component is missing: the stem is
/// missing for a file input, the name for a directory input.
pub open spec fn spec_no_component_error(input_is_file: bool) -> OutputPathError {
    if input_is_file {
        OutputPathError::NoFileStem
    } else {
        OutputPathError::NoDirectoryName
    }
}

/// Where the condensed output of `input` goes: next to the input, in a
/// directory named after the input's stem (for a file) or final component
/// (for a directory) joined with the output directory name.  The final
/// component is read as the standard path reading does: trailing separators
/// and current-directory components are ignored.  Rejected inputs: the
/// empty path; the filesystem root (any path that is nothing but separators
/// and current-directory components after a leading separator); and a path
/// whose final component is missing or is the parent-directory component,
/// for which no name can be derived.
pub open spec fn spec_get_output_path(
    input: Seq<char>,
    output_dir_name: Option<Seq<char>>,
    input_is_file: bool,
) -> Result<Seq<char>, OutputPathError> {
    if input.len() == 0 {
        Result::Err(OutputPathError::EmptyInput)
    } else {
        let q = trim_tail(input);
        if q.len() == 0 {
            if input[0] == '/' {
                Result::Err(OutputPathError::RootInput)
            } else {
                Result::Err(spec_no_component_error(input_is_file))
            }
        } else {
            let name = file_name_of(q);
            if name == seq!['.', '.'] {
                Result::Err(spec_no_component_error(input_is_file))
            } else {
                let dir_name = match output_dir_name {
                    Option::Some(n) => n,
                    Option::None => "code-context"@,
                };
                let base = if input_is_file {
                    file_stem_of(name)
                } else {
                    name
                };
                Result::Ok(join_path(parent_of(q), base + seq!['-'] + dir_name))
            }
        }
    }
}

/// Holds the options of one processing run.
pub struct FileProcessor {
    pub no_comments: bool,
    pub no_function_bodies: bool,
    pub dry_run: bool,
    pub single_file: bool,
}

impl FileProcessor {
    /// Builds a processor with the given options.
    pub fn with_options(
        no_comments: bool,
        no_function_bodies: bool,
        dry_run: bool,
        single_file: bool,
    ) -> (r: Self)
        ensures
            r.no_comments == no_comments,
            r.no_function_bodies == no_function_bodies,
            r.dry_run == dry_run,
            r.single_file == single_file,
    {
        Self { no_comments, no_function_bodies, dry_run, single_file }
    }

    pub fn dry_run(&self) -> (r: bool)
        ensures
            r == self.dry_run,
    {
        self.dry_run
    }

    pub fn single_file(&self) -> (r: bool)
        ensures
            r == self.single_file,
    {
        self.single_file
    }

    pub fn no_comments(&self) -> (r: bool)
        ensures
            r == self.no_comments,
    {
        self.no_comments
    }

    pub fn no_function_body(&self) -> (r: bool)
        ensures
            r == self.no_function_bodies,
    {
        self.no_function_bodies
    }

    /// Computes the output directory for an input path.  `input_is_file`
    /// says whether the path names a file or a directory, which only the
    /// caller can know.
    pub fn get_output_path(input: &str, output_dir_name: Option<&str>, input_is_file: bool) -> (r:
        Result<String, OutputPathError>)
        ensures
            match r {
                Result::Ok(p) => spec_get_output_path(
                    input@,
                    match output_dir_name {
                        Option::Some(n) => Option::Some(n@),
                        Option::None => Option::None,
                    },
                    input_is_file,
                ) == Result::<Seq<char>, OutputPathError>::Ok(p@),
                Result::Err(e) => spec_get_output_path(
                    input@,
                    match output_dir_name {
                        Option::Some(n) => Option::Some(n@),
                        Option::None => Option::None,
                    },
                    input_is_file,
                ) == Result::<Seq<char>, OutputPathError>::Err(e),
            },
    {
        let n = input.unicode_len();
        if n == 0 {
            return Result::Err(OutputPathError::EmptyInput);
        }
        let e = trim_path_end(input);
        if e == 0 {
            proof {
                assert(trim_tail(input@) =~= Seq::<char>::empty());
            }
            if input.get_char(0) == '/' {
                return Result::Err(OutputPathError::RootInput);
            }
            if input_is_file {
                return Result::Err(OutputPathError::NoFileStem);
            }
            return Result::Err(OutputPathError::NoDirectoryName);
        }
        let q: &str = input.substring_char(0, e);
        proof {
            assert(q@ == trim_tail(input@));
        }
        proof {
            lemma_last_index_of(q@, '/');
        }
        let last_slash = find_last(q, '/');
        let name_start: usize = match last_slash {
            Option::Some(k) => k + 1,
            Option::None => 0,
        };
        let file_name: &str = q.substring_char(name_start, e);
        proof {
            assert(file_name@ == file_name_of(q@));
        }
        let name_len = e - name_start;
        if name_len == 2 && file_name.get_char(0) == '.' && file_name.get_char(1) == '.' {
            proof {
                assert(file_name@ =~= seq!['.', '.']);
            }
            if input_is_file {
                return Result::Err(OutputPathError::NoFileStem);
            }
            return Result::Err(OutputPathError::NoDirectoryName);
        }
        proof {
            if file_name@ == seq!['.', '.'] {
                assert(file_name@.len() == 2);
                assert(file_name@[0] == '.');
                assert(file_name@[1] == '.');
            }
        }
        let dir_name: &str = match output_dir_name {
            Option::Some(s) => s,
            Option::None => "code-context",
        };
        let base: &str = if input_is_file {
            let last_dot = find_last(file_name, '.');
            match last_dot {
                Option::Some(k) => {
                    if k == 0 {
                        file_name
                    } else {
                        proof {
                            lemma_last_index_of(file_name@, '.');
                        }
                        file_name.substring_char(0, k)
                    }
                },
                Option::None => file_name,
            }
        } else {
            file_name
        };
        proof {
            if input_is_file {
                assert(base@ == file_stem_of(file_name_of(q@)));
            }
        }
        let combined = String::from_str(base).concat("-").concat(dir_name);
        proof {
            assert(combined@ == base@ + "-"@ + dir_name@);
            reveal_strlit("-");
            assert("-"@ =~= seq!['-']);
        }
        let result: String = match last_slash {
            Option::Some(k) => {
                if k == 0 {
                    let joined = String::from_str("/").concat(combined.as_str());
                    proof {
                        reveal_strlit("/");
                        assert("/"@ =~= seq!['/']);
                        assert(parent_of(q@) =~= seq!['/']);
                        assert(joined@ =~= join_path(parent_of(q@), combined@));
                    }
                    joined
                } else {
                    let parent: &str = q.substring_char(0, k);
                    proof {
                        assert(parent@ == parent_of(q@));
                    }
                    if q.get_char(k - 1) == '/' {
                        let joined = String::from_str(parent).concat(combined.as_str());
                        proof {
                            assert(parent@.last() == '/');
                            assert(joined@ =~= join_path(parent_of(q@), combined@));
                        }
                        joined
                    } else {
                        let joined = String::from_str(parent).concat("/").concat(
                            combined.as_str(),
                        );
                        proof {
                            assert(parent@.last() != '/');
                            reveal_strlit("/");
                            assert("/"@ =~= seq!['/']);
                            assert(joined@ =~= join_path(parent_of(q@), combined@));
                        }
                        joined
                    }
                }
            },
            Option::None => {
                proof {
                    assert(parent_of(q@) =~= Seq::<char>::empty());
                }
                combined
            },
        };
        Result::Ok(result)
    }
}

} // verus!
