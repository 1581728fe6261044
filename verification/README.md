# libil2cpp

Bindings to the il2cpp runtime, split in two:

- `src/` is the verified library. It models what the bindings read from the
  runtime as plain values (method descriptors, type descriptors, classes,
  managed references by address) and proves the logic over them: method
  attribute bits, the parameter list, the written form of a signature,
  nullable references, by-reference wrappers, and the checks that decide
  whether a call's `this`, arguments and return type fit a method.
- `app/` loads `libil2cpp.so` and binds the runtime functions it exports,
  and follows the raw addresses that the library's managed references hold.
