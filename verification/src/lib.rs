//! Metric collection for a Ceph cluster: the data model of the cluster
//! health report and of OSD performance counters, and the text that is
//! sent to InfluxDB, Carbon and the HTTP recorder.

pub mod communication;
pub mod decimal;
pub mod discovery;
pub mod health;
pub mod logging;
pub mod perf;
pub mod text;
