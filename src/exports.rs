//! Destinations to which the result of a plan is written.
use vstd::prelude::*;

use crate::utils::{joined, resolve_path};

verus! {

/// Available exports that can be used in configuration files.
#[derive(Debug, Clone)]
pub enum ExportItem {
    /// Export data to CSV.
    Csv(CsvExport),
    /// Export data to newline-delimited JSON.
    NdJson(NdJsonExport),
    /// Collect and serialize the whole result to a single JSON document.
    Json(JsonExport),
}

/// Export data to CSV.
#[derive(Debug, Clone)]
pub struct CsvExport {
    /// Folder in which to create files.
    pub folder: String,
    /// Name of the output file, without the extension.
    pub name: String,
    /// Optional format of the current time appended to the file name.
    pub date_format: Option<String>,
    /// Whether to stream the result to the file (the default) or collect it first.
    pub sink: Option<bool>,
}

/// Export data to newline-delimited JSON.
#[derive(Debug, Clone)]
pub struct NdJsonExport {
    pub folder: String,
    pub name: String,
    pub date_format: Option<String>,
}

/// Export data to a single JSON document.
#[derive(Debug, Clone)]
pub struct JsonExport {
    pub folder: String,
    pub name: String,
    pub date_format: Option<String>,
}

/// How the result is written.
#[derive(Debug, PartialEq, Eq, Structural, Clone, Copy)]
pub enum WriteMode {
    /// Stream the plan into a CSV file.
    CsvSink,
    /// Collect the plan, then write a CSV file with a header and `,` separators.
    CsvCollect,
    /// Stream the plan into a newline-delimited JSON file.
    NdJsonSink,
    /// Collect the plan, then serialize it as one JSON document.
    JsonDocument,
}

/// The folder of an export.
pub open spec fn export_folder(e: ExportItem) -> Seq<char> {
    match e {
        ExportItem::Csv(x) => x.folder@,
        ExportItem::NdJson(x) => x.folder@,
        ExportItem::Json(x) => x.folder@,
    }
}

/// The file name of an export, without timestamp or extension.
pub open spec fn export_name(e: ExportItem) -> Seq<char> {
    match e {
        ExportItem::Csv(x) => x.name@,
        ExportItem::NdJson(x) => x.name@,
        ExportItem::Json(x) => x.name@,
    }
}

/// The format of the time appended to the file name, if any.
pub open spec fn export_date_format(e: ExportItem) -> Option<String> {
    match e {
        ExportItem::Csv(x) => x.date_format,
        ExportItem::NdJson(x) => x.date_format,
        ExportItem::Json(x) => x.date_format,
    }
}

/// Whether the export's file name carries a timestamp.
pub open spec fn has_date_format(e: ExportItem) -> bool {
    export_date_format(e) is Some
}

/// The file extension of an export.
pub open spec fn export_extension(e: ExportItem) -> Seq<char> {
    match e {
        ExportItem::Csv(_) => ".csv"@,
        ExportItem::NdJson(_) => ".jsonl"@,
        ExportItem::Json(_) => ".json"@,
    }
}

/// The file name: the name, then the formatted time when a date format is given,
/// then the extension.
pub open spec fn file_name_of(e: ExportItem, timestamp: Seq<char>) -> Seq<char> {
    export_name(e) + (if has_date_format(e) {
        timestamp
    } else {
        Seq::empty()
    }) + export_extension(e)
}

/// How an export writes.
pub open spec fn write_mode_of(e: ExportItem) -> WriteMode {
    match e {
        ExportItem::Csv(x) => if x.sink == Some(false) {
            WriteMode::CsvCollect
        } else {
            WriteMode::CsvSink
        },
        ExportItem::NdJson(_) => WriteMode::NdJsonSink,
        ExportItem::Json(_) => WriteMode::JsonDocument,
    }
}

impl ExportItem {
    /// The folder in which the file is created.
    pub fn folder(&self) -> (r: &String)
        ensures
            r@ == export_folder(*self),
    {
        match self {
            ExportItem::Csv(x) => &x.folder,
            ExportItem::NdJson(x) => &x.folder,
            ExportItem::Json(x) => &x.folder,
        }
    }

    /// The format of the time to append to the file name, if any.
    pub fn date_format(&self) -> (r: &Option<String>)
        ensures
            *r == export_date_format(*self),
    {
        match self {
            ExportItem::Csv(x) => &x.date_format,
            ExportItem::NdJson(x) => &x.date_format,
            ExportItem::Json(x) => &x.date_format,
        }
    }

    /// The name of the file to write, given the time formatted by the date format
    /// (ignored when there is none).
    pub fn file_name(&self, timestamp: &String) -> (r: String)
        ensures
            r@ == file_name_of(*self, timestamp@),
    {
        let (name, dated, extension) = match self {
            ExportItem::Csv(x) => (&x.name, x.date_format.is_some(), ".csv"),
            ExportItem::NdJson(x) => (&x.name, x.date_format.is_some(), ".jsonl"),
            ExportItem::Json(x) => (&x.name, x.date_format.is_some(), ".json"),
        };
        let mut r = name.clone();
        if dated {
            r.append(timestamp.as_str());
        }
        r.append(extension);
        assert(r@ =~= file_name_of(*self, timestamp@));
        r
    }

    /// The path of the file to write: the file name inside the folder, which is
    /// resolved against `base`.
    pub fn file_path(&self, base: &String, timestamp: &String) -> (r: String)
        ensures
            r@ == joined(joined(base@, export_folder(*self)), file_name_of(*self, timestamp@)),
    {
        let folder = resolve_path(base, self.folder());
        let name = self.file_name(timestamp);
        resolve_path(&folder, &name)
    }

    /// How the result is written.
    pub fn write_mode(&self) -> (r: WriteMode)
        ensures
            r == write_mode_of(*self),
    {
        match self {
            ExportItem::Csv(x) => match x.sink {
                Some(false) => WriteMode::CsvCollect,
                _ => WriteMode::CsvSink,
            },
            ExportItem::NdJson(_) => WriteMode::NdJsonSink,
            ExportItem::Json(_) => WriteMode::JsonDocument,
        }
    }
}

} // verus!
