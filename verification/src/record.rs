//! The display record for one filesystem child, and its construction from
//! the raw data of a directory scan: name, formatted date and time, byte
//! size, and classification into file / directory / hidden file / hidden
//! directory. A child whose metadata could not be read degrades to a
//! zero-valued placeholder record instead of failing the scan.
use crate::timefmt::spec_date_string;
use crate::timefmt::spec_time_string;
use crate::timefmt::date_string;
use crate::timefmt::time_string;
use crate::timefmt::MAX_TIMESTAMP_SECS;
use vstd::prelude::*;

verus! {

/// The metadata of one child as the scan read it: whether it is a regular
/// file, its byte length, and its last-modified instant in whole seconds
/// since the Unix epoch.
#[derive(Clone, Copy, Debug, PartialEq, Eq, Structural)]
pub struct RawMeta {
    pub is_file: bool,
    pub len: u64,
    pub modified_secs: u64,
}

/// One child as the scan saw it: its name, and its metadata where that
/// could be read.
#[derive(Debug)]
pub struct RawEntry {
    pub name: String,
    pub meta: Option<RawMeta>,
}

/// The mathematical value of a [`RawEntry`]: the name as a character
/// sequence beside the plain metadata.
pub struct RawEntryView {
    pub name: Seq<char>,
    pub meta: Option<RawMeta>,
}

impl View for RawEntry {
    type V = RawEntryView;

    open spec fn view(&self) -> RawEntryView {
        RawEntryView { name: self.name@, meta: self.meta }
    }
}

impl DeepView for RawEntry {
    type V = RawEntryView;

    open spec fn deep_view(&self) -> RawEntryView {
        self.view()
    }
}

/// The classification of a child: a regular file or a directory, each
/// either visible or hidden. An entry is hidden exactly when its name
/// starts with a dot.
#[derive(Clone, Copy, Debug, PartialEq, Eq, Structural)]
pub enum FileType {
    File,
    Dir,
    HiddenFile,
    HiddenDir,
}

/// The display-ready record of one child: raw name, formatted date and
/// time, byte size (0 for directories and placeholder records), and
/// classification.
#[derive(Debug)]
pub struct FexFile {
    pub name: String,
    pub date: String,
    pub time: String,
    pub len: u64,
    pub file_type: FileType,
}

/// The mathematical value of a [`FexFile`]: its strings as character
/// sequences beside the plain fields.
pub struct FexFileView {
    pub name: Seq<char>,
    pub date: Seq<char>,
    pub time: Seq<char>,
    pub len: u64,
    pub file_type: FileType,
}

impl View for FexFile {
    type V = FexFileView;

    open spec fn view(&self) -> FexFileView {
        FexFileView {
            name: self.name@,
            date: self.date@,
            time: self.time@,
            len: self.len,
            file_type: self.file_type,
        }
    }
}

impl DeepView for FexFile {
    type V = FexFileView;

    open spec fn deep_view(&self) -> FexFileView {
        self.view()
    }
}

impl Clone for FexFile {
    fn clone(&self) -> (r: Self)
        ensures
            r == *self,
    {
        FexFile {
            name: self.name.clone(),
            date: self.date.clone(),
            time: self.time.clone(),
            len: self.len,
            file_type: self.file_type,
        }
    }
}

/// A name marks its entry hidden exactly when it starts with a dot.
pub open spec fn spec_is_hidden(name: Seq<char>) -> bool {
    name.len() > 0 && name[0] == '.'
}

/// The classification of a child from its name and whether it is a
/// regular file.
pub open spec fn spec_classify(name: Seq<char>, is_file: bool) -> FileType {
    if spec_is_hidden(name) {
        if is_file {
            FileType::HiddenFile
        } else {
            FileType::HiddenDir
        }
    } else {
        if is_file {
            FileType::File
        } else {
            FileType::Dir
        }
    }
}

/// The placeholder record substituted for a child whose metadata could
/// not be read: empty strings, size 0, classified as a file.
pub open spec fn spec_placeholder() -> FexFileView {
    FexFileView {
        name: Seq::empty(),
        date: Seq::empty(),
        time: Seq::empty(),
        len: 0,
        file_type: FileType::File,
    }
}

/// The record built from one scanned child: name kept as scanned, date and
/// time rendered from the modified instant, size taken from the metadata
/// for regular files and 0 for directories, and the classification from
/// the name and kind. A child without readable metadata, or with a
/// modified instant past the representable calendar range, degrades to
/// the placeholder.
pub open spec fn spec_record(e: RawEntryView) -> FexFileView {
    match e.meta {
        Some(m) => {
            if m.modified_secs <= MAX_TIMESTAMP_SECS {
                FexFileView {
                    name: e.name,
                    date: spec_date_string(m.modified_secs),
                    time: spec_time_string(m.modified_secs),
                    len: if m.is_file {
                        m.len
                    } else {
                        0
                    },
                    file_type: spec_classify(e.name, m.is_file),
                }
            } else {
                spec_placeholder()
            }
        },
        None => spec_placeholder(),
    }
}

/// The records of a whole scan: one per child, in scan order.
pub open spec fn spec_records(es: Seq<RawEntryView>) -> Seq<FexFileView> {
    es.map_values(|e: RawEntryView| spec_record(e))
}

/// A record is classified hidden exactly when the scanned name starts with
/// a dot, and as a file exactly when the metadata said the child is a
/// regular file.
pub proof fn lemma_classification(name: Seq<char>, is_file: bool)
    ensures
        (spec_classify(name, is_file) == FileType::HiddenFile || spec_classify(name, is_file)
            == FileType::HiddenDir) <==> spec_is_hidden(name),
        (spec_classify(name, is_file) == FileType::File || spec_classify(name, is_file)
            == FileType::HiddenFile) <==> is_file,
{
}

/// The size field of a record equals the scanned byte length for a regular
/// file and 0 for a directory, whenever the child's metadata was readable
/// and its modified instant within the calendar range.
pub proof fn lemma_record_size(name: Seq<char>, m: RawMeta)
    requires
        m.modified_secs <= MAX_TIMESTAMP_SECS,
    ensures
        m.is_file ==> spec_record((RawEntryView { name, meta: Some(m) })).len == m.len,
        !m.is_file ==> spec_record((RawEntryView { name, meta: Some(m) })).len == 0,
{
}

/// Classifies a child from its name and whether it is a regular file.
pub fn classify(name: &str, is_file: bool) -> (t: FileType)
    ensures
        t == spec_classify(name@, is_file),
{
    let hidden = !name.is_empty() && name.get_char(0) == '.';
    if hidden {
        if is_file {
            FileType::HiddenFile
        } else {
            FileType::HiddenDir
        }
    } else {
        if is_file {
            FileType::File
        } else {
            FileType::Dir
        }
    }
}

impl FexFile {
    /// The placeholder record for a child whose metadata could not be read.
    pub fn placeholder() -> (r: FexFile)
        ensures
            r@ == spec_placeholder(),
    {
        FexFile {
            name: String::new(),
            date: String::new(),
            time: String::new(),
            len: 0,
            file_type: FileType::File,
        }
    }

    /// Builds the display record of one scanned child, substituting the
    /// placeholder where its metadata is missing or out of calendar range.
    pub fn from_raw(entry: &RawEntry) -> (r: FexFile)
        ensures
            r@ == spec_record(entry@),
    {
        match &entry.meta {
            Some(m) => {
                if m.modified_secs <= MAX_TIMESTAMP_SECS {
                    FexFile {
                        name: entry.name.clone(),
                        date: date_string(m.modified_secs),
                        time: time_string(m.modified_secs),
                        len: if m.is_file {
                            m.len
                        } else {
                            0
                        },
                        file_type: classify(entry.name.as_str(), m.is_file),
                    }
                } else {
                    FexFile::placeholder()
                }
            },
            None => FexFile::placeholder(),
        }
    }
}

/// Builds the record of every scanned child, one per child, in scan order.
pub fn normalize_entries(es: &Vec<RawEntry>) -> (r: Vec<FexFile>)
    ensures
        r.deep_view() == spec_records(es.deep_view()),
{
    let mut out: Vec<FexFile> = Vec::new();
    let mut i: usize = 0;
    while i < es.len()
        invariant
            i <= es@.len(),
            out@.len() == i,
            forall|j: int| 0 <= j < i ==> (#[trigger] out@[j])@ == spec_record(es@[j]@),
        decreases es@.len() - i,
    {
        let f = FexFile::from_raw(&es[i]);
        let ghost pre = out@;
        out.push(f);
        proof {
            assert(out@ == pre.push(f));
            assert forall|j: int| 0 <= j < i + 1 implies (#[trigger] out@[j])@ == spec_record(
                es@[j]@,
            ) by {
                if j < i {
                    assert(out@[j] == pre[j]);
                } else {
                    assert(out@[j] == f);
                }
            }
        }
        i = i + 1;
    }
    proof {
        assert forall|j: int| 0 <= j < es@.len() implies out.deep_view()[j] == spec_records(
            es.deep_view(),
        )[j] by {
            assert(out.deep_view()[j] == out@[j].deep_view());
            assert(es.deep_view()[j] == es@[j].deep_view());
        }
        assert(out.deep_view() =~= spec_records(es.deep_view()));
    }
    out
}

/// Copies a sequence of records, preserving every field of every record.
pub fn clone_records(v: &Vec<FexFile>) -> (r: Vec<FexFile>)
    ensures
        r.deep_view() == v.deep_view(),
        r@ == v@,
{
    let mut out: Vec<FexFile> = Vec::new();
    let mut i: usize = 0;
    while i < v.len()
        invariant
            i <= v@.len(),
            out@.len() == i,
            forall|j: int| 0 <= j < i ==> out@[j] == v@[j],
        decreases v@.len() - i,
    {
        let f = v[i].clone();
        out.push(f);
        i = i + 1;
    }
    proof {
        assert(out@ =~= v@);
        assert(out.deep_view() =~= v.deep_view());
    }
    out
}

} // verus!
