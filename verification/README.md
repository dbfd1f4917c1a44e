# muskitty-html5-tokenizer

An HTML tokenizer in Rust, verified with Verus.

The tokenizer reads a string and emits tokens: DOCTYPEs, start and end tags,
comments, processing instructions, characters and the end of the file. A tree
builder can switch its state between two tokens, to have the content of
`<title>`, `<style>` or `<script>` read as it should be.

```rust
use muskitty_html5_tokenizer::{HtmlTokenizer, Tokenizer};

let mut t = HtmlTokenizer::new("<p>hello</p>");
while let Some(token) = t.next_token() {
    // use the token
}
```

## Layout

- `types.rs`: tokens and states, with their views.
- `trait_def.rs`: the `Tokenizer` trait. Its contracts say that a tokenizer
  behaves as a machine.
- `model.rs`, `model/`: that machine, state by state; how it makes progress
  (`progress.rs`), what its runs are (`runs.rs`), and why it is never stuck when
  it began at the beginning (`coherence.rs`).
- `tokenizer.rs`, `tokenizer/`: `HtmlTokenizer`, which is proved to take the
  machine's steps.
- `entities.rs`: the named character references.
- `chars.rs`, `strings.rs`: characters and strings. `strings.rs` states what
  `String::push` and `char::from_u32` do; nothing else is taken on trust.
- `laws/`: what follows for the tokenizer as a whole. The tokens end, and end
  once; text comes out as it went in; the content of an element ends with its
  first end tag; written tags, DOCTYPEs, comments and instructions are read
  back; references stand for what they name; every attribute has a name;
  every name in the table of references resolves (`laws/names/`).
