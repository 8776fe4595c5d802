//! Library and import configuration section

use vstd::prelude::*;
use crate::text::{cat3, decimal, is_blank, is_whitespace_char, owned, u64_decimal};
use crate::validate::texts;
use crate::validation::{
    blank_check, failures, issue, lemma_failures_push, range_check, reported, ConfigSection,
    ValidationError, ValidationIssue, Validator,
};

verus! {

/// Library management and import settings
#[derive(Debug, Clone, PartialEq)]
pub struct LibraryConfig {
    /// Default library paths to scan for audiobooks
    pub library_paths: Vec<String>,
    /// Supported audio file extensions
    pub supported_extensions: Vec<String>,
    /// Auto-import new files when scanning
    pub auto_import: bool,
    /// Extract metadata from audio files
    pub extract_metadata: bool,
    /// Recurse into subdirectories when scanning
    pub recursive_scan: bool,
    /// Maximum recursion depth (0 = unlimited)
    pub max_scan_depth: u32,
    /// Skip files smaller than this size in bytes
    pub min_file_size_bytes: u64,
    /// Follow symbolic links when scanning
    pub follow_symlinks: bool,
    /// Organize imported files by author/title
    pub organize_files: bool,
    /// Target directory for organized files (if organize_files is true)
    pub organization_target: Option<String>,
}

/// The extensions a library accepts unless configured otherwise.
pub open spec fn default_extensions() -> Seq<Seq<char>> {
    seq!["mp3"@, "m4a"@, "m4b"@, "ogg"@, "opus"@, "flac"@, "wav"@]
}

/// The largest minimum file size accepted: 100 MB.
pub const MAX_MIN_FILE_SIZE: u64 = 104857600;

/// The library section as it comes by default.
pub open spec fn is_default_library_config(c: LibraryConfig) -> bool {
    &&& c.library_paths@.len() == 0
    &&& texts(c.supported_extensions@) == default_extensions()
    &&& !c.auto_import
    &&& c.extract_metadata
    &&& c.recursive_scan
    &&& c.max_scan_depth == 0
    &&& c.min_file_size_bytes == 1024
    &&& !c.follow_symlinks
    &&& !c.organize_files
    &&& c.organization_target is None
}

impl Default for LibraryConfig {
    fn default() -> (r: Self)
        ensures
            is_default_library_config(r),
    {
        let supported_extensions = vec![
            owned("mp3"),
            owned("m4a"),
            owned("m4b"),
            owned("ogg"),
            owned("opus"),
            owned("flac"),
            owned("wav"),
        ];
        proof {
            assert(texts(supported_extensions@) =~= default_extensions());
        }
        LibraryConfig {
            library_paths: Vec::new(),
            supported_extensions,
            auto_import: false,
            extract_metadata: true,
            recursive_scan: true,
            max_scan_depth: 0,
            min_file_size_bytes: 1024,
            follow_symlinks: false,
            organize_files: false,
            organization_target: None,
        }
    }
}

/// The path of the `i`-th supported extension in error reports.
pub open spec fn extension_field(i: nat) -> Seq<char> {
    "library.supported_extensions["@ + decimal(i) + "]"@
}

/// The problems of a list of extensions: one for each blank entry, in order.
pub open spec fn extension_issues(exts: Seq<Seq<char>>) -> Seq<ValidationIssue>
    decreases exts.len(),
{
    if exts.len() == 0 {
        Seq::empty()
    } else {
        extension_issues(exts.drop_last()) + reported(
            blank_check(exts.last(), extension_field((exts.len() - 1) as nat)),
        )
    }
}

/// The problem with the organisation target, if any.
pub open spec fn organization_issues(organize: bool, target: Option<String>) -> Seq<ValidationIssue> {
    if !organize {
        Seq::empty()
    } else {
        match target {
            Some(t) => if t@.len() == 0 {
                seq![
                    issue(
                        "library.organization_target"@,
                        "must not be empty when organize_files is true"@,
                    ),
                ]
            } else {
                Seq::empty()
            },
            None => seq![
                issue("library.organization_target"@, "must be set when organize_files is true"@),
            ],
        }
    }
}

/// The problems of a library section, in the order they are reported.
pub open spec fn library_issues(c: LibraryConfig) -> Seq<ValidationIssue> {
    reported(
        range_check(
            c.min_file_size_bytes as int,
            0,
            MAX_MIN_FILE_SIZE as int,
            "library.min_file_size_bytes"@,
        ),
    ) + extension_issues(texts(c.supported_extensions@)) + organization_issues(
        c.organize_files,
        c.organization_target,
    )
}

impl ConfigSection for LibraryConfig {
    open spec fn issues(&self) -> Seq<ValidationIssue> {
        library_issues(*self)
    }

    open spec fn merged(self, other: Self) -> Self {
        other
    }

    open spec fn name(&self) -> Seq<char> {
        "library"@
    }

    fn validate(&self) -> (r: Result<(), Vec<ValidationError>>) {
        let mut results: Vec<Result<(), ValidationError>> = Vec::new();
        let size_check = Validator::in_range(
            self.min_file_size_bytes as i128,
            0,
            MAX_MIN_FILE_SIZE as i128,
            "library.min_file_size_bytes",
        );
        proof {
            lemma_failures_push(results@, size_check);
            assert(failures(Seq::<Result<(), ValidationError>>::empty()) =~= Seq::empty());
        }
        results.push(size_check);
        let ghost head = failures(results@);
        let ghost exts = texts(self.supported_extensions@);
        let mut i: usize = 0;
        while i < self.supported_extensions.len()
            invariant
                i <= self.supported_extensions@.len(),
                exts == texts(self.supported_extensions@),
                failures(results@) == head + extension_issues(exts.subrange(0, i as int)),
            decreases self.supported_extensions@.len() - i,
        {
            let field = cat3(
                "library.supported_extensions[",
                u64_decimal(i as u64).as_str(),
                "]",
            );
            let check = Validator::not_empty(self.supported_extensions[i].as_str(), field.as_str());
            proof {
                lemma_failures_push(results@, check);
                let after = exts.subrange(0, i + 1);
                assert(after.drop_last() =~= exts.subrange(0, i as int));
                assert(after.last() == self.supported_extensions@[i as int]@);
                assert(field@ == extension_field(i as nat));
            }
            results.push(check);
            i = i + 1;
        }
        proof {
            assert(exts.subrange(0, exts.len() as int) =~= exts);
        }
        if self.organize_files {
            match &self.organization_target {
                Some(target) => {
                    if target.as_str().unicode_len() == 0 {
                        let e = ValidationError::new(
                            "library.organization_target",
                            "must not be empty when organize_files is true",
                        );
                        proof {
                            lemma_failures_push(results@, Err(e));
                        }
                        results.push(Err(e));
                    }
                },
                None => {
                    let e = ValidationError::new(
                        "library.organization_target",
                        "must be set when organize_files is true",
                    );
                    proof {
                        lemma_failures_push(results@, Err(e));
                    }
                    results.push(Err(e));
                },
            }
        }
        proof {
            assert(failures(results@) =~= library_issues(*self));
        }
        Validator::collect_errors(results)
    }

    fn merge(&mut self, other: Self) {
        self.library_paths = other.library_paths;
        self.supported_extensions = other.supported_extensions;
        self.auto_import = other.auto_import;
        self.extract_metadata = other.extract_metadata;
        self.recursive_scan = other.recursive_scan;
        self.max_scan_depth = other.max_scan_depth;
        self.min_file_size_bytes = other.min_file_size_bytes;
        self.follow_symlinks = other.follow_symlinks;
        self.organize_files = other.organize_files;
        self.organization_target = other.organization_target;
    }

    fn section_name(&self) -> (r: &'static str) {
        "library"
    }
}

/// Merging a library section into another gives the merged-in section:
/// its values take precedence, all of them.
pub proof fn law_library_merge_takes_other(base: LibraryConfig, other: LibraryConfig)
    ensures
        base.merged(other) == other,
{
}

/// The default library section is valid: it has no problems.
pub proof fn law_default_library_config_is_valid(c: LibraryConfig)
    requires
        is_default_library_config(c),
    ensures
        library_issues(c).len() == 0,
{
    reveal_strlit("mp3");
    reveal_strlit("m4a");
    reveal_strlit("m4b");
    reveal_strlit("ogg");
    reveal_strlit("opus");
    reveal_strlit("flac");
    reveal_strlit("wav");
    let exts = default_extensions();
    assert forall|i: int| 0 <= i < 7 implies !is_blank(#[trigger] exts[i]) by {
        assert(exts[i].len() > 0);
        assert(!is_whitespace_char(exts[i][0]));
    }
    reveal_with_fuel(extension_issues, 8);
    assert(extension_issues(exts).len() == 0);
}

} // verus!
