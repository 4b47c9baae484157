# rustack

The verified core of a local AWS-compatible service emulator, written in
Verus.

- `src/` is the library. Every function in it is verified against its
  `requires`/`ensures`; calls into outside crates and the standard library
  that Verus cannot read go through small trusted wrappers, each documented
  with what it assumes. It holds the DynamoDB Streams store and API, the
  CloudWatch metric, dashboard and insight stores, the CloudFront XML request
  tree and the configurations read from it, the CloudFront data plane's
  decisions, the gateway's request routing, the API Gateway v2 control plane
  (request merging, dispatch, and the provider's records), and the
  Smithy-model code generator.
- `tests/` runs the library on concrete values.
- `app/` is the program around it: environment and argument handling, file
  and network I/O, and the serde copies of the configuration and model types.
