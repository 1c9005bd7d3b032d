//! The top-level configuration: a loader, further transformations, and exports.
use vstd::prelude::*;

use crate::exports::ExportItem;
use crate::plan::Plan;
use crate::sources::{loader_plan, Loader};
use crate::transforms::{apply_transforms, transforms_plan, TransformItem};
use crate::utils::Error;

verus! {

/// Configuration to load data, apply transformations, and export to one or more
/// destinations.
#[derive(Debug)]
pub struct Config {
    /// The top-level source that data is loaded from.
    pub source: Loader,
    /// Transformations applied after the loader's own.
    pub transforms: Vec<TransformItem>,
    /// Export destinations for the transformed data.
    pub exports: Vec<ExportItem>,
}

/// The plan of a configuration: the loader's plan, then the top-level
/// transformations in order.
pub open spec fn config_plan(c: Config) -> Plan
    decreases c,
{
    transforms_plan(loader_plan(c.source), c.transforms@)
}

impl Config {
    /// The end result without exporting; never fails, and gives [`config_plan`].
    pub fn load(self) -> (r: Result<Plan, Error>)
        ensures
            r == Ok::<Plan, Error>(config_plan(self)),
    {
        Ok(self.build())
    }

    /// The loader's plan with the top-level transformations applied in order.
    pub fn build(self) -> (r: Plan)
        ensures
            r == config_plan(self),
        decreases self,
    {
        let p = self.source.build();
        apply_transforms(p, self.transforms)
    }

    /// The plan together with the exports that should each receive it, in document
    /// order. Fails with [`Error::NoExports`], before any loading, exactly when no export
    /// is declared.
    pub fn run(self) -> (r: Result<(Plan, Vec<ExportItem>), Error>)
        ensures
            self.exports@.len() == 0 <==> r is Err,
            r is Err ==> r->Err_0 is NoExports,
            r matches Ok((p, e)) ==> p == config_plan(self) && e == self.exports,
    {
        if self.exports.len() == 0 {
            return Err(Error::NoExports);
        }
        let Config { source, transforms, exports } = self;
        let p = source.build();
        let p = apply_transforms(p, transforms);
        Ok((p, exports))
    }
}

} // verus!
