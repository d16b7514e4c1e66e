# mpp_support

Support for pushing MPP work down to the storage layer, verified with Verus.

- `src/encoded_ops/`: the hints and requests by which a planner tells a
  columnstore which work it may do on dictionary-encoded data. Requests are
  relayed unchanged: a clone is proved to equal its original.
- `src/shardkey.rs`: the shard slot of a row. Feeding the key columns to the
  hasher one by one is proved to give the slot of the concatenated key.
- `src/crc32.rs`: CRC-32/IEEE by its definition, what is claimed of the
  `crc32fast` hasher that computes it, and the laws of the checksum.
- `src/distribution.rs`: the proof that decimal integer keys spread evenly over
  eight shards.

The three functions of `crc32fast` that the library calls are trusted; all else
in `src/` is proved.
