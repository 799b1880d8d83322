pub mod cgroup_v1;
pub mod cgroup_v2;
pub mod config;
pub mod decimal;
pub mod gpu;
pub mod paths;
pub mod procfs;
pub mod sampling;
pub mod stats;
pub mod store;
pub mod supervisor;
pub mod text;
