use vstd::prelude::*;

verus! {

/// Number of control modules: the front-ends and the master.
pub const NUMBER_OF_MODULES: usize = 12;

/// Id of the master trigger module; every other id in `0..NUMBER_OF_MODULES` is a front-end.
pub const MUTANT_ID: usize = 11;

/// Transport named in the data links of a module.
pub const PROTOCOL: &'static str = "TCP";

/// Port on which a data router listens.
pub const DATA_ROUTER_LISTENER_PORT: i32 = 46005;

/// Port on which a data exporter listens.
pub const DATA_EXPORTER_LISTENER_PORT: i32 = 46007;

/// Subnet shared by all modules.
pub const ADDRESS_START: &'static str = "192.168.41";

/// Directory of the module configuration files.
pub const CONFIG_DIR: &'static str = "/Users/attpc/configs";

/// Directory that receives copies of the configuration files of each run.
pub const BACK_CONFIG_DIR: &'static str = "/Users/attpc/configs_backup";

} // verus!
