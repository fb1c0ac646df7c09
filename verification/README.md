# stabil_api

A JSON API over the web catalogue (VuFind) of the Hamburg State and University
Library: session tokens, loans, reservations, search, holds and cancellations,
and a barcode-to-PPN lookup in the union catalogue.

## Layout

- `src/` — the verified library (Verus).
  - `text.rs`: text operations on `&str`/`String` with contracts over `Seq<char>`
    (search, markers, trimming with Unicode white space, words, joining,
    integer parsing and printing).
  - `scraping/html.rs`: parsed pages and elements through the `scraper` crate.
    The crate's results are named by uninterpreted functions of the page text
    and the selection path; everything above the wrappers is proved against
    those names.
  - `json.rs`: parsed JSON texts through the `serde_json` crate, named in the
    same way: by the text and the path of member and element steps.
  - `scraping/models.rs`, `scraping/libraries.rs`: the API's data types with
    their views, the status and library tables.
  - `routes/`: one module per route. Each takes the page that the catalogue
    answered with (or the outcome of the catalogue call) and computes the
    API's answer; its `ensures` states that answer exactly. Each session route's
    `request_for` decides between the cookie to send and the answer given
    without a request; `session_token::after_login_page` decides the login's
    next step. `routes/properties.rs` holds the laws that span routes.
- `tests/` — tests on concrete pages and values.
- `app/` — the HTTP server (axum), the requests to the catalogue (reqwest,
  Z39.50), the clock, and the serde/OpenAPI copies of the library's types.
