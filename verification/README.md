# parallel_workers

A worker answers requests `x! / y`; this crate serves them sequentially, on a
pool of threads fed round robin, with a rayon parallel iterator, and on tokio
event loops, all driven by one harness of simulated clients.

- `src/` is the verified library: requests and responses and the
  worker's decisions (`worker`), the generated run data, its even split among
  clients and the batched reader of responses (`harness`), the round robin
  over a pool's threads (`threadpool`), the parallel batch computation
  (`par_iter`), and the plans of each kind of run.
- `app/` is the program: channels, threads, timing and printing, and the
  tokio event loops. It runs each plan that the library makes.
- `tests/` exercises the library.
