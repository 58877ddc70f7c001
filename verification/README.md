# qrmi (verified core)

The verified core of the Quantum Resource Management Interface: a
vendor-agnostic layer through which HPC systems reach quantum resources.

- `src/` is checked by Verus. It holds the job models and their wire
  names (`jobs`), the error model and the C return codes (`error`), the error
  state and string handling of the C interface (`cext_state`), the usage and
  payload models (`models`), a string map standing for the string-keyed hash
  maps (`string_map`), the defaults of resources that implement only part of
  the interface (`resource`), and the IBM Quantum Compute Service resource
  and provider (`ibm`): their settings, the records they map, and every
  decision they take around a call to the service, including the steps of
  acquiring a session, taken one answer of the service at a time, and the
  choice and order of the resources a provider lists.
- `app/` is ordinary Rust around it: the serialized forms of the records,
  the asynchronous resource and provider traits, the loop that drives a
  session acquisition, and the C interface.
- `tests/` runs the library on concrete inputs.
