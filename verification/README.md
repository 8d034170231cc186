# disambiguate

The part of a JavaScript/TypeScript lexer that decides what a character means where the characters
around it do not: is `/` a division or a regular expression, does `<` compare or open a list of
types, does `>>` shift or close two lists, is `{` a block or an object. Written in Rust and proved
with Verus: every function states what it returns, and the proofs rest on nothing but Verus and its
standard library.

## How it works

A lex is a source, a bitmap of its token starts, a bitmap of its operator bytes and a kind for each
token (`cx`). A question about a place in it is answered in one of two ways.

- A *walk* (`walk`, `step`, `ops`, `words`) reads tokens forward with a stack of frames and knows,
  after each, what may come next. `state` says what it does: `State::step` is one token,
  `State::run` as many as it takes.
- *Seed rules* (`rules`, `leaf`, `names`, executed by `seed`) look back from a place, within a
  budget, and tell what a bracket there opens. `seek` finds a place from which a short walk can
  start, `plant` sets the walk up there.

`session` ties the two together: a short walk from a seed where one is found, the full walk
otherwise. `operator` and `entries` are what a lexer asks. `anchor` and `trail` scan back for a
token whose context is certain, and note what a walk from there could jump over; `approach` answers
questions by such walks. `sweep` compares two token streams, for `app/`, which runs a whole corpus
through two lexers.

## Layout

- `src/token.rs`, `bytes.rs`, `bitmap.rs`, `tables.rs`, `cx.rs`: a lex, and reading it.
- `src/frame.rs`, `state.rs`: frames, and the model of a walk.
- `src/alike.rs`: what a walk remembers of its seed does not show in the model.
- `src/walk.rs`, `step.rs`, `ops.rs`, `words.rs`: the walk itself.
- `src/delim.rs`, `scans.rs`, `typelist.rs`: bracket matching and forward scans.
- `src/query.rs`, `leaf.rs`, `names.rs`, `rules.rs`, `seed.rs`: the seed rules.
- `src/seek.rs`, `plant.rs`, `session.rs`, `operator.rs`, `entries.rs`: questions and answers.
- `src/anchor.rs`, `trail.rs`, `approach.rs`: anchors, plans, and walks from an anchor.
- `src/sweep.rs`: comparing token streams.
- `src/laws.rs`: what holds across functions. Other laws stand beside the functions they are about.
