# ceph_monitor

Collects the health and performance counters of a Ceph cluster node and
sends them to InfluxDB, Carbon (graphite) and an HTTP recorder.

- `src/` is the library, verified with Verus:
  - `health` — the cluster health report and the JSON summary posted of it;
  - `perf` — OSD performance counters: the preparation of a perf dump for
    decoding, and the Carbon lines and InfluxDB point built from it;
  - `communication` — the output settings, the InfluxDB connection and the
    Carbon address;
  - `logging` — the host name and the URLs of the HTTP recorder;
  - `discovery` — the OSD numbers found in admin socket names, and the
    schedule of the polling rounds;
  - `decimal`, `text` — decimal text of integers and character helpers.
- `app/` is the program: command line, admin sockets, JSON decoding, the
  network and the polling loop.
- `tests/` runs the library on concrete values.
