//! Startup configuration: which datasets to serve, under which table names,
//! and where to listen.
use vstd::prelude::*;
use crate::text::{ascii_lower_seq, file_stem, file_stem_of, to_ascii_lower, views_of};

verus! {

/// What the command line resolves to.
pub struct Config {
    /// Dataset root paths to serve.
    pub datasets: Vec<String>,
    /// One table name per dataset, in the same order; derived from the paths when absent.
    pub table_names: Option<Vec<String>>,
    /// Address to bind.
    pub host: String,
    /// Port to bind.
    pub port: u16,
}

/// One table to register: its name and the dataset path behind it.
pub struct TableSource {
    pub name: String,
    pub path: String,
}

/// Why the configured tables cannot be resolved.
#[derive(Debug, PartialEq, Eq)]
pub enum ConfigError {
    /// Table names were given, but not exactly one per dataset.
    CountMismatch { datasets: usize, names: usize },
    /// No table name can be derived from this dataset path.
    UnnamedDataset(String),
}

/// The table name derived from a dataset path: its file stem in ASCII lowercase.
pub open spec fn table_name_of(path: Seq<char>) -> Option<Seq<char>> {
    match file_stem_of(path) {
        Some(stem) => Some(ascii_lower_seq(stem)),
        None => None,
    }
}

/// Whether every dataset path yields a table name.
pub open spec fn all_named(datasets: Seq<String>) -> bool {
    forall|i: int| 0 <= i < datasets.len() ==> (#[trigger] table_name_of(datasets[i]@)) is Some
}

/// Whether `sources` pairs `names` with `datasets`, position by position.
pub open spec fn paired(sources: Seq<TableSource>, names: Seq<Seq<char>>, datasets: Seq<String>) -> bool {
    &&& sources.len() == datasets.len()
    &&& names.len() == datasets.len()
    &&& forall|i: int|
        0 <= i < sources.len() ==> (#[trigger] sources[i]).name@ == names[i] && sources[i].path@
            == datasets[i]@
}

/// The names derived from the dataset paths (meaningful where `all_named` holds).
pub open spec fn derived_names(datasets: Seq<String>) -> Seq<Seq<char>> {
    datasets.map_values(|d: String| table_name_of(d@)->Some_0)
}

/// Derives a table name from a dataset path: the file stem, lowercased
/// (ASCII letters only); `None` where the path has no file stem.
pub fn table_name_from_path(path: &str) -> (r: Option<String>)
    ensures
        match r {
            Some(n) => table_name_of(path@) == Some(n@),
            None => table_name_of(path@) is None,
        },
{
    match file_stem(path) {
        Some(stem) => Some(to_ascii_lower(stem.as_str())),
        None => None,
    }
}

impl Config {
    /// Pairs each dataset with its table name. Given names must number
    /// exactly one per dataset; absent names are derived from the paths, and
    /// the first path that yields none is reported.
    pub fn tables(&self) -> (r: Result<Vec<TableSource>, ConfigError>)
        ensures
            match self.table_names {
                Some(names) => if names.len() == self.datasets.len() {
                    r matches Ok(v) && paired(v@, views_of(names@), self.datasets@)
                } else {
                    r == Err::<Vec<TableSource>, ConfigError>(
                        ConfigError::CountMismatch {
                            datasets: self.datasets.len(),
                            names: names.len(),
                        },
                    )
                },
                None => if all_named(self.datasets@) {
                    r matches Ok(v) && paired(v@, derived_names(self.datasets@), self.datasets@)
                } else {
                    r matches Err(ConfigError::UnnamedDataset(p)) && exists|k: int|
                        0 <= k < self.datasets.len() && p@ == self.datasets[k]@ && (
                        #[trigger] table_name_of(self.datasets[k]@)) is None && forall|j: int|
                        0 <= j < k ==> (#[trigger] table_name_of(self.datasets[j]@)) is Some
                },
            },
    {
        let n = self.datasets.len();
        let mut out: Vec<TableSource> = Vec::new();
        match &self.table_names {
            Some(names) => {
                if names.len() != n {
                    return Err(ConfigError::CountMismatch { datasets: n, names: names.len() });
                }
                let ghost nv = views_of(names@);
                let mut i: usize = 0;
                while i < n
                    invariant
                        n == self.datasets.len(),
                        n == names.len(),
                        nv == views_of(names@),
                        i <= n,
                        out@.len() == i,
                        forall|k: int|
                            0 <= k < i ==> (#[trigger] out@[k]).name@ == nv[k] && out@[k].path@
                                == self.datasets[k]@,
                    decreases n - i,
                {
                    out.push(TableSource { name: names[i].clone(), path: self.datasets[i].clone() });
                    i = i + 1;
                }
                assert(views_of(names@).len() == n);
                assert(paired(out@, views_of(names@), self.datasets@));
                Ok(out)
            },
            None => {
                let ghost dn = derived_names(self.datasets@);
                let mut i: usize = 0;
                while i < n
                    invariant
                        self.table_names is None,
                        n == self.datasets.len(),
                        dn == derived_names(self.datasets@),
                        i <= n,
                        out@.len() == i,
                        forall|j: int| 0 <= j < i ==> (#[trigger] table_name_of(self.datasets[j]@)) is Some,
                        forall|k: int|
                            0 <= k < i ==> (#[trigger] out@[k]).name@ == dn[k] && out@[k].path@
                                == self.datasets[k]@,
                    decreases n - i,
                {
                    match table_name_from_path(self.datasets[i].as_str()) {
                        Some(t) => {
                            out.push(TableSource { name: t, path: self.datasets[i].clone() });
                        },
                        None => {
                            assert(table_name_of(self.datasets[i as int]@) is None);
                            return Err(ConfigError::UnnamedDataset(self.datasets[i].clone()));
                        },
                    }
                    i = i + 1;
                }
                assert(all_named(self.datasets@));
                Ok(out)
            },
        }
    }
}

} // verus!
