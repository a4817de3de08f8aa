//! The entry types the browsing tools list, filter and preview.  Every
//! field is a plain value; loading the entries from the system is the
//! host's job.

use vstd::prelude::*;

use crate::filter::Searchable;
use crate::text::dec_str;
use crate::text::u32_to_string;

verus! {

/// One file or directory in the explorer's listing.
#[derive(Debug, Clone)]
pub struct FileEntry {
    pub name: String,
    pub path: String,
    pub is_directory: bool,
    pub size: Option<u64>,
    pub is_parent: bool,
}

/// One commit in the log browser.
#[derive(Debug, Clone)]
pub struct GitCommit {
    pub hash: String,
    pub short_hash: String,
    pub message: String,
    pub author: String,
    pub date: String,
}

/// One branch in the branch switcher.
#[derive(Debug, Clone)]
pub struct GitBranch {
    pub name: String,
    pub is_current: bool,
    pub is_remote: bool,
}

/// One remembered shell command.
#[derive(Debug, Clone)]
pub struct HistoryEntry {
    pub command: String,
    pub timestamp: Option<String>,
}

/// One manual page.
#[derive(Debug, Clone)]
pub struct ManPage {
    pub name: String,
    pub section: String,
    pub description: String,
}

/// One recently used file.
#[derive(Debug, Clone)]
pub struct RecentFile {
    pub display_name: String,
    pub path: String,
}

/// One line matched by a content search, parsed from
/// `path:line_number:content` output.
#[derive(Debug, Clone)]
pub struct SearchResult {
    pub file_path: String,
    pub line_number: u32,
    pub line_content: String,
    pub matched_text: String,
}

/// One running process.  Load figures are kept in tenths of a percent, as
/// the process lister reports them.
#[derive(Debug, Clone)]
pub struct Process {
    pub pid: u32,
    pub name: String,
    pub cpu_tenths: u32,
    pub memory_tenths: u32,
    pub command: String,
}

impl Searchable for String {
    open spec fn search_rep(&self) -> Seq<Seq<char>> {
        seq![self@]
    }

    fn search_fields(&self) -> (r: Vec<String>) {
        let mut v: Vec<String> = Vec::new();
        v.push(self.clone());
        v
    }

    fn duplicate(&self) -> (r: Self) {
        self.clone()
    }
}

impl Searchable for ManPage {
    open spec fn search_rep(&self) -> Seq<Seq<char>> {
        seq![self.name@, self.description@]
    }

    fn search_fields(&self) -> (r: Vec<String>) {
        let mut v: Vec<String> = Vec::new();
        v.push(self.name.clone());
        v.push(self.description.clone());
        v
    }

    fn duplicate(&self) -> (r: Self) {
        ManPage {
            name: self.name.clone(),
            section: self.section.clone(),
            description: self.description.clone(),
        }
    }
}

impl Searchable for Process {
    open spec fn search_rep(&self) -> Seq<Seq<char>> {
        seq![self.name@, self.command@, dec_str(self.pid as int)]
    }

    fn search_fields(&self) -> (r: Vec<String>) {
        let mut v: Vec<String> = Vec::new();
        v.push(self.name.clone());
        v.push(self.command.clone());
        v.push(u32_to_string(self.pid));
        v
    }

    fn duplicate(&self) -> (r: Self) {
        Process {
            pid: self.pid,
            name: self.name.clone(),
            cpu_tenths: self.cpu_tenths,
            memory_tenths: self.memory_tenths,
            command: self.command.clone(),
        }
    }
}

/// An environment variable, filtered by name and value alike.
impl Searchable for (String, String) {
    open spec fn search_rep(&self) -> Seq<Seq<char>> {
        seq![self.0@, self.1@]
    }

    fn search_fields(&self) -> (r: Vec<String>) {
        let mut v: Vec<String> = Vec::new();
        v.push(self.0.clone());
        v.push(self.1.clone());
        v
    }

    fn duplicate(&self) -> (r: Self) {
        (self.0.clone(), self.1.clone())
    }
}

impl Searchable for FileEntry {
    open spec fn search_rep(&self) -> Seq<Seq<char>> {
        seq![self.name@]
    }

    fn search_fields(&self) -> (r: Vec<String>) {
        let mut v: Vec<String> = Vec::new();
        v.push(self.name.clone());
        v
    }

    fn duplicate(&self) -> (r: Self) {
        FileEntry {
            name: self.name.clone(),
            path: self.path.clone(),
            is_directory: self.is_directory,
            size: self.size,
            is_parent: self.is_parent,
        }
    }
}

} // verus!
