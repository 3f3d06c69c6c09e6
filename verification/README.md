# test_consumer

The verified core of the MyFans test-consumer contract.

- `src/types.rs`: the shared enums `SubscriptionStatus`, `ContentType` and
  `MyfansError`, the stable code of each variant as a spec function, and the
  proofs that distinct variants have distinct codes.
- `src/consumer.rs`: `TestConsumer` with `is_active`, `error_code` and
  `content_code`, each with an exact contract.
- `app/lib.rs`: the Soroban contract that exposes those entry points; it holds
  the contract-facing copies of the enums with the SDK's derives and converts
  them to and from the library's types.
- `tests/`: the original entry-point tests and tests of the laws on concrete
  values.
