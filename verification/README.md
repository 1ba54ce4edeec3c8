# kenja_tools

Tools that gather an anime catalogue from a web API into MongoDB and flatten it
into the documents of a search index.

The crate is written in Verus. `src/` is the library. Its own functions carry
contracts that Verus proves. The calls into outside crates (`serde_json`,
`url`, `blake3`, `hex`, `chrono`) go through a few small `external_body`
wrappers whose contracts are trusted, not proved; each says in its doc
comment what it claims of the function it calls.

- `documents`: the catalogue's documents (raw API answers, stored sources,
  search documents, identities) and the rating and item-kind choices.
- `text`, `json`: decimal numerals and substring search on strings; the few
  JSON operations the library needs, behind contracts on `serde_json`.
- `lookup`: finding the first item with a given catalogue id.
- `api`: urls of the API, reading an answer (status, body, data, pagination),
  which characters of a cast and which anime casts are still to be fetched,
  and the paged crawl.
- `data`: the media-type and rating filters, and the paths and new names of
  images (`url`, `blake3` and `hex` behind contracts).
- `flatten`: the flattening run as a state machine: which anime and
  characters become documents, in which order, and when a batch is handed out.
- `collect`: the runs that turn the pictures and promotional videos of listed
  anime into documents.
- `anime_text`: each anime beside the characters of its cast, read from the
  raw cast lists, handed out in batches.

The runs never do I/O themselves: they ask their caller to read the clock, to
publish an image or to insert a batch, and take the answer back. Their
contracts state the next state and action exactly, through spec functions
named `*_spec`; the `lemma_*_laws` proof functions state what holds in every
state a run reaches.

`app/` is the command-line program around the library: argument parsing,
HTTP requests, MongoDB, the file system, and the loops that drive the runs.
Its commands:

- `api-ani-chara`, `api-ani-staff`: fetch the cast or staff list of every
  anime of the pool, from its start (there is no resume point; a later run
  of `ani-chara-check` fetches the casts still missing).
- `api-chara`, `api-staff`: fetch the characters or staff not fetched before.
- `api-img`, `api-img-ex`: fetch images and extra pictures.
- `api-season`: fetch the listing of one season. The listings of many
  seasons read from a file are fetched by running it once per season.
- `ani-chara-check`: fetch the casts missing for the first anime of the pool.
- `ani-chara-mix`: store each anime beside the characters of its cast.
- `clean-img`, `data-merge`: maintenance of the stored collections.
- `data-flatten`, `data-pics`, `data-yvideos`: make the search documents.

There is no command that only opens the connections and does nothing else.
`tests/` holds the tests.
