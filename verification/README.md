# turso-compio

Embedded Turso's file I/O on a CompIO runtime: one exclusively owned database
and its WAL, with Turso 0.7.2. The rules cover Linux and macOS; the package
depends on `io-uring` and so builds on Linux. No CompIO backend is enabled here:
select one through the application's own CompIO dependency.

What the adapter decides is verified with Verus, in `src/`. On which thread and
in which runtime a call is made is observed in `app/` and handed to it.

| Module | What it decides |
| --- | --- |
| `options`, `error`, `text` | limits, refusals and their texts |
| `budget`, `bridge`, `staging` | what is admitted, what it is charged, FIFO order, the shared staging buffer |
| `buffer`, `file`, `adapter` | the requests that Turso makes |
| `execution`, `driver`, `lifetime` | how an operation runs, how jobs are executed and told, and how a connection ends |
| `opening`, `native` | how the files are opened, and whether operations run without worker threads |
| `ledger`, `transfer`, `order` | laws that span these functions |

The laws say, among other things, that the budget always equals what is held
against it and stays within its limits, that a read delivers the content of the
file and a write writes its buffers back to back however many calls they take,
that jobs are executed in the order in which they were submitted and within the
checks that they were admitted under, that nothing is accepted once the driver
is gone, that a completion is told once and only after its
reservation is given back, and that the database is locked before its WAL is
touched and closed after it.

`app/` performs the system calls and implements the traits of CompIO and Turso:

```rust
let connection = open(std::path::Path::new("data.db")).await?;
```

There are no I/O limits by default. `open_with_options` caps outstanding
operations or retained bytes; hitting a limit returns an error and does not wait
for space. `open_strict` rejects the filesystem worker-thread fallback; it needs
Linux io_uring with the required operations, among them `FTRUNCATE` (Linux
6.9+).
