# strict_thiserror

`src/` holds `Var`, the wrapper that derived `Display` impls put around a field
written as `{field:p}`, its verified accessor `Var::pointee`, and its `Pointer`
impl, whose `fmt` forwards to the field's own `Pointer` impl. That `fmt` is
trusted, not proved: it writes through a `core::fmt::Formatter`, of which
nothing can be stated. `app/` holds the repository extension runner, which
calls the `template_stask` and `template_core` crates.
