# intel_features

A read-only detector for Intel processor and platform features. It reports not just
whether a feature exists but, where determinable, whether firmware enabled it and
whether the OS uses it: CPUID per logical core, `/proc/cpuinfo`, sysfs and device
nodes, the kernel's vulnerability files, MSRs (root), PCI devices, ACPI tables, EFI
variables and SMBIOS.

The library (`src/`) is written in Verus. Every probe's decision logic, the feature
catalog, the CPU model database, the fold of all detections into a report and the text
rendering carry contracts that Verus proves. The probes take what was read from the host
as plain values (`TextRead`, `Listing`, `MetadataRead`, register values), so each
decision is stated, and tested, for every possible reading.

Layout:

* `src/model.rs`, `src/catalog.rs`, `src/cpu_db.rs`: statuses and detections, the
  feature registry, the family/model database.
* `src/probes/`: one module per detection mechanism; `cpuid_table.rs` says which leaf,
  register and bit each CPUID feature comes from.
* `src/report.rs`, `src/report/render.rs`: the fold against the catalog and the text
  output.
* `src/cli.rs`: command-line options.
* `src/text.rs`: the string operations the rest is stated over.
* `app/`: the program: reads the host, pins threads for the per-core CPUID scan, performs
  MSR reads and the optional `modprobe msr`, and prints text or JSON.
