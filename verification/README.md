# host_env

The host side of a ledger's wasm virtual machine. Guests (transactions, validity predicates and
matchmakers) import host functions, with which they use gas, read and change the storage, iterate
over it, log, and inject transactions.

`src/` is the verified library: what each host function decides and answers. It takes the bytes at
which the guest points and gives back what is to be written to the guest's memory. It asks the
storage through a function that the caller hands in, and only where the write log of the
transaction does not decide.

- `tx`, `vp`, `matchmaker`: the host functions of each kind of guest
- `imports`: the names under which guests find them
- `reads`, `iteration`: reads and iterator steps over the state before and after a transaction
- `write_log`, `prefix_iter`, `gas`, `key`: what the host keeps
- `reply`, `key_val`, `messages`, `text`, `error`: what goes to and comes from guests
- `laws`: what holds of the host functions together

`app/` links the library with wasmer, the node's storage and the logger.
