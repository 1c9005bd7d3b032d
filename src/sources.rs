//! Sources from which data is loaded and passed on to transformations.
use vstd::prelude::*;

use crate::config::{config_plan, Config};
use crate::plan::{InlineColumn, Plan, Scan, Schema};
use crate::transforms::{apply_transforms, transforms_plan, TransformItem};
use crate::utils::{parent_directory, parent_of, CanonicalPath, CanonicalPaths, Error};

verus! {

/// Available sources that can be used in configuration files.
#[derive(Debug)]
pub enum SourceItem {
    /// Load data from CSV.
    Csv(CsvSource),
    /// Load data from newline-delimited JSON files.
    JsonLine(JsonLineSource),
    /// Load data from a JSON file.
    Json(JsonSource),
    /// Load data from another configuration.
    Config(ConfigSource),
    /// Load data from parquet files.
    Parquet(ParquetSource),
    /// A literal table, for example to map values through a join.
    Inline(InlineSource),
}

/// A source together with the transformations applied to its data.
#[derive(Debug)]
pub struct Loader {
    pub source: SourceItem,
    pub transforms: Vec<TransformItem>,
}

/// A valid ASCII CSV separator.
#[derive(Debug)]
pub struct Separator(pub u8);

/// Load data from CSV files.
#[derive(Debug)]
pub struct CsvSource {
    /// The files to load.
    pub path: CanonicalPaths,
    /// Separator to use when parsing.
    pub separator: Option<Separator>,
    /// Whether or not files have headers (they do when absent).
    pub has_header: Option<bool>,
    /// Data types to enforce for some columns.
    pub schema: Option<Schema>,
}

/// Load data from newline-delimited JSON files.
#[derive(Debug)]
pub struct JsonLineSource {
    pub path: CanonicalPaths,
    pub schema: Option<Schema>,
}

/// Load data from a JSON file.
#[derive(Debug)]
pub struct JsonSource {
    pub path: CanonicalPath,
    pub schema: Option<Schema>,
}

/// Another configuration used as a data source.
#[derive(Debug)]
pub struct ConfigSource {
    /// Path to the configuration file.
    pub path: CanonicalPath,
    /// The configuration read from that file, its paths resolved against its own directory.
    pub config: Box<Config>,
}

/// Load data from parquet files.
#[derive(Debug)]
pub struct ParquetSource {
    pub paths: Vec<String>,
    pub schema: Option<Schema>,
}

/// A literal column-oriented table.
#[derive(Debug)]
pub struct InlineSource(pub Vec<InlineColumn>);

/// The plan that a source starts.
pub open spec fn source_plan(s: SourceItem) -> Plan
    decreases s,
{
    match s {
        SourceItem::Csv(c) => Plan::Scan(
            Scan::Csv {
                paths: c.path.0,
                separator: match c.separator {
                    Some(sep) => Some(sep.0),
                    None => None,
                },
                has_header: match c.has_header {
                    Some(h) => h,
                    None => true,
                },
                truncate_ragged_lines: true,
                schema: c.schema,
            },
        ),
        SourceItem::JsonLine(j) => Plan::Scan(Scan::JsonLines { paths: j.path.0, schema: j.schema }),
        SourceItem::Json(j) => Plan::Scan(Scan::Json { path: j.path.0, schema: j.schema }),
        SourceItem::Config(c) => config_plan(*c.config),
        SourceItem::Parquet(p) => Plan::Scan(Scan::Parquet { paths: p.paths, schema: p.schema }),
        SourceItem::Inline(t) => Plan::Scan(Scan::Inline(t.0)),
    }
}

/// The plan of a loader: its source, then its transformations in order.
pub open spec fn loader_plan(l: Loader) -> Plan
    decreases l,
{
    transforms_plan(source_plan(l.source), l.transforms@)
}

impl SourceItem {
    /// Loads the source; never fails, and gives [`source_plan`].
    pub fn load(self) -> (r: Result<Plan, Error>)
        ensures
            r == Ok::<Plan, Error>(source_plan(self)),
    {
        Ok(self.build())
    }

    /// The plan that the source starts.
    pub fn build(self) -> (r: Plan)
        ensures
            r == source_plan(self),
        decreases self,
    {
        match self {
            SourceItem::Csv(c) => c.build(),
            SourceItem::JsonLine(j) => Plan::Scan(Scan::JsonLines { paths: j.path.0, schema: j.schema }),
            SourceItem::Json(j) => Plan::Scan(Scan::Json { path: j.path.0, schema: j.schema }),
            SourceItem::Config(c) => c.config.build(),
            SourceItem::Parquet(p) => Plan::Scan(Scan::Parquet { paths: p.paths, schema: p.schema }),
            SourceItem::Inline(t) => Plan::Scan(Scan::Inline(t.0)),
        }
    }
}

impl CsvSource {
    /// Scans the files; headers are expected unless said otherwise, and ragged lines
    /// are truncated.
    pub fn build(self) -> (r: Plan)
        ensures
            r == source_plan(SourceItem::Csv(self)),
    {
        let separator = match self.separator {
            Some(sep) => Some(sep.0),
            None => None,
        };
        let has_header = match self.has_header {
            Some(h) => h,
            None => true,
        };
        Plan::Scan(
            Scan::Csv {
                paths: self.path.0,
                separator,
                has_header,
                truncate_ragged_lines: true,
                schema: self.schema,
            },
        )
    }
}

impl Loader {
    /// Loads the source and applies the transformations in order; never fails, and
    /// gives [`loader_plan`].
    pub fn load(self) -> (r: Result<Plan, Error>)
        ensures
            r == Ok::<Plan, Error>(loader_plan(self)),
    {
        Ok(self.build())
    }

    /// The source's plan with the transformations applied in order.
    pub fn build(self) -> (r: Plan)
        ensures
            r == loader_plan(self),
        decreases self,
    {
        let p = self.source.build();
        apply_transforms(p, self.transforms)
    }
}

impl ConfigSource {
    /// The directory of the nested configuration's file, against which its relative
    /// paths resolve.
    pub fn directory(&self) -> (r: String)
        ensures
            r@ == parent_of(self.path.0@),
    {
        parent_directory(&self.path.0)
    }
}

impl Separator {
    /// The separator for a character; fails for one that does not fit in a byte.
    pub fn try_from(value: char) -> (r: Result<Separator, Error>)
        ensures
            (value as u32) < 256 <==> r is Ok,
            r matches Ok(s) ==> s.0 as u32 == value as u32,
            r is Err ==> r->Err_0 is Other,
    {
        let code = value as u32;
        if code < 256 {
            Ok(Separator(code as u8))
        } else {
            Err(Error::Other("separator must be a single-byte character".to_string()))
        }
    }
}

impl CsvSource {
    /// Scan the CSV files.
    pub fn load(self) -> (r: Result<Plan, Error>)
        ensures
            r == Ok::<Plan, Error>(source_plan(SourceItem::Csv(self))),
    {
        Ok(SourceItem::Csv(self).build())
    }
}

impl JsonLineSource {
    /// Scan the newline-delimited JSON files.
    pub fn load(self) -> (r: Result<Plan, Error>)
        ensures
            r == Ok::<Plan, Error>(source_plan(SourceItem::JsonLine(self))),
    {
        Ok(SourceItem::JsonLine(self).build())
    }
}

impl JsonSource {
    /// Read the JSON file.
    pub fn load(self) -> (r: Result<Plan, Error>)
        ensures
            r == Ok::<Plan, Error>(source_plan(SourceItem::Json(self))),
    {
        Ok(SourceItem::Json(self).build())
    }
}

impl ConfigSource {
    /// The plan of the nested configuration.
    pub fn load(self) -> (r: Result<Plan, Error>)
        ensures
            r == Ok::<Plan, Error>(source_plan(SourceItem::Config(self))),
    {
        Ok(SourceItem::Config(self).build())
    }
}

impl ParquetSource {
    /// Scan the parquet files.
    pub fn load(self) -> (r: Result<Plan, Error>)
        ensures
            r == Ok::<Plan, Error>(source_plan(SourceItem::Parquet(self))),
    {
        Ok(SourceItem::Parquet(self).build())
    }
}

impl InlineSource {
    /// The literal table.
    pub fn load(self) -> (r: Result<Plan, Error>)
        ensures
            r == Ok::<Plan, Error>(source_plan(SourceItem::Inline(self))),
    {
        Ok(SourceItem::Inline(self).build())
    }
}

} // verus!
