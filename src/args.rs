//! Where assets come from: a packfile, or an asset daemon, as the command line chose.
use vstd::prelude::*;

verus! {

/// Settings of an asset daemon.
pub struct AssetDaemonArgs {
    /// Directory of the asset metadata database.
    pub db_dir: String,
    /// Socket address the daemon listens on, such as `127.0.0.1:9999`.
    pub address: String,
    /// Directories watched for assets.
    pub asset_dirs: Vec<String>,
}

impl AssetDaemonArgs {
    pub open spec fn same_as(&self, other: &AssetDaemonArgs) -> bool {
        &&& self.db_dir@ == other.db_dir@
        &&& self.address@ == other.address@
        &&& self.asset_dirs.deep_view() == other.asset_dirs.deep_view()
    }

    fn duplicate(&self) -> (r: AssetDaemonArgs)
        ensures
            r.same_as(self),
    {
        let mut asset_dirs: Vec<String> = Vec::new();
        let mut i: usize = 0;
        while i < self.asset_dirs.len()
            invariant
                i <= self.asset_dirs@.len(),
                asset_dirs@.len() == i,
                forall|j: int| 0 <= j < i ==> asset_dirs@[j]@ == self.asset_dirs@[j]@,
            decreases self.asset_dirs@.len() - i,
        {
            asset_dirs.push(self.asset_dirs[i].clone());
            i = i + 1;
        }
        assert(asset_dirs.deep_view() =~= self.asset_dirs.deep_view());
        AssetDaemonArgs { db_dir: self.db_dir.clone(), address: self.address.clone(), asset_dirs }
    }
}

/// The command line's choice of asset source.
pub struct ApiaryArgs {
    /// Path to a packfile; when given, assets come from it.
    pub packfile: Option<String>,
    /// Whether the asset daemon runs outside this process.
    pub external_daemon: bool,
    pub daemon_args: AssetDaemonArgs,
}

/// Where assets are loaded from.
pub enum AssetSource {
    Packfile(String),
    Daemon { external_daemon: bool, daemon_args: AssetDaemonArgs },
}

impl ApiaryArgs {
    /// The packfile when one is given, else the asset daemon with its settings.
    pub fn asset_source(&self) -> (r: Option<AssetSource>)
        ensures
            r matches Some(source) && match self.packfile {
                Some(path) => source matches AssetSource::Packfile(p) && p@ == path@,
                None => source matches AssetSource::Daemon { external_daemon, daemon_args }
                    && external_daemon == self.external_daemon && daemon_args.same_as(
                    &self.daemon_args,
                ),
            },
    {
        if let Some(packfile) = &self.packfile {
            return Some(AssetSource::Packfile(packfile.clone()));
        }
        Some(
            AssetSource::Daemon {
                external_daemon: self.external_daemon,
                daemon_args: self.daemon_args.duplicate(),
            },
        )
    }
}

} // verus!
