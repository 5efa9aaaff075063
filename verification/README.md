# ats_scanner

Resume analysis for applicant tracking systems, with the analysis written
as a Verus library whose functions carry `requires`/`ensures` contracts.

- `src/` is the verified library: document text and metadata, section
  detection, memory accounting, ATS format checks, industry, experience
  and role-level signals, scoring weights and scores, prompt building, job
  search queries, user preferences and schema migrations. Calls into
  outside crates (regex, ZIP, XML, encodings, dates, JSON) go through
  small trusted wrappers whose contracts are documented where they stand.
- `app/` is the program around it: the SQLite database, migrations run on
  it, file reading, the PDF readers (which can panic on malformed files, so
  their panics are caught there and their outcome handed to the library), serialization, and the parts of the analysis that are
  floating point.
- `tests/` exercises the library on concrete inputs.

Scores, weights and importances are whole numbers in the library (percent,
tenths, hundredths or thousandths, as each item's documentation says); the
application turns them into fractions where it needs them.
