# rasterwave-node

Node-API bindings for the `rasterwave` streaming SSTV and radiofax codec, with
their decision logic verified by Verus.

## Layout

- `src/` is the verified library:
  - `decoder.rs` and `encoder.rs`: each codec instance's FIFO command queue,
    its bounds (operations and queued samples), lifecycle (finish, dispose,
    failure) and worker hand-off, with the laws that hold over whole runs of
    operations (one worker at most, first-in-first-out order, reads served in
    call order, fixed progress totals).
  - `config.rs`: validation of decoder, fax-spec and station-ID options into
    plans, with each refusal stated in order.
  - `sstv_notice.rs` and `fax_notice.rs`: the notification delivered for each
    codec event, with the safe-integer checks on every id.
  - `modes.rs`, `clock.rs`, `names.rs`, `notify.rs`: the published names and
    their correspondence with the codec's enums.
  - `codec.rs`: the few calls into `rasterwave` (line rates, image buffers,
    mode dimensions), each behind a small trusted wrapper.
  - `error.rs`, `limits.rs`, `text.rs`: refusals with their codes and messages,
    JavaScript number limits, decimal spelling.
- `app/` is the Node-API surface: classes, promises, the thread pool, and the
  floating-point options and measurements that are copied through.
- `tests/` exercises the library on concrete values.
