# ats

Tailors one resume to one job posting: the posting is scraped, its keywords are
extracted, the resume is rewritten around them, and the result is exported as a
PDF.

- `src/` is the library, verified with Verus. It decides and computes: it
  validates and renders resumes, reads the replies of the language model, ranks
  keywords, measures their density, classes failures, and says after every event
  what a command does next. It never touches the network, the disk or the clock.
- `app/` is the program around it. It reads, writes, fetches and asks, and
  reports back to the library what came of it.
- `tests/` runs the library.

Commands: `ats render`, `ats scrape`, `ats keywords`, `ats optimize`, `ats pdf`,
and `ats run` for all of them in a row.

Exit codes: 0 success, 1 filesystem or other failure, 2 configuration, 3 resume
document, 4 posting not reachable, 5 language model, 6 keywords that match no
schema, 7 PDF.
