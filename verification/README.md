# gashuu

The presentation-layer logic of the gashuu manga / comic viewer as a verified
library, with a small command-line shell for the update plumbing.

- `src/` — the library, verified with Verus: navigation and key mapping, page
  counter and page-jump parsing, page-decode dispatch bookkeeping, the library
  search projection and bulk selection, carousel focus and cover bookkeeping
  (including the byte-budgeted LRU of decoded covers, kept in `lru`), bulk add,
  single open, drag and drop, bulk remove (planned, then committed only once
  the shrunken library was saved), the settings-dialog session, the
  status-line texts in English and Japanese, human-readable sizes, the HTTP
  timeout plans of the update checker and the search for the executable in a
  release zip (read with `zip`).
- `tests/` — the test suite.
- `app/` — the command-line shell: the update check and asset download
  (`ureq`), writing the extracted executable, self-replacement
  (`self-replace`), and the floating-point thumbnail-strip geometry.
