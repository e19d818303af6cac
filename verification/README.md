# sass-rs

A binding to [libsass](https://github.com/sass/libsass), split in two.

`src/` is a library verified with Verus. It holds what the binding decides:

- `options`: the user's options (`Options`, `OutputStyle`) and their defaults;
- `context`: the two flavours of context (file, data), the option record that
  libsass compiles with and how the user's options change it, and what a
  compilation yields from what libsass reports (`compile_outcome`);
- `value`: Sass values as a tree, their readers and their printed form;
- `dispatch`: custom functions — registration of providers in slots, and
  the answers given to libsass when it calls one;
- `text`: C-string admissibility, decimal text, UTF-8 decoding, joining;
- `cli`: the options that the program's flags select;
- `compile_string` / `compile_file`: the prepared context of a compilation.

`app/` is the program around it: it drives libsass through its C interface
(creating the context, copying the option record, compiling, reading the
report), runs the channels of custom-function calls, and reads standard
input for the `sass-rs` command:

```bash
$ sass-rs < source/style.scss
$ sass-rs --sass --compressed < source/style.sass
```
