# form_collect

A small web service that collects form submissions per task and shows them
as a spreadsheet. The library in `src/` holds everything the service decides
and computes, each function with a proved contract; `app/main.rs` is the HTTP server, the sled
database and the file reads around it.

- `src/order.rs`: the column order of a task's table, i.e. the submitted member
  names sorted stably by where each first appears in the submitted text, with
  the proof that this order is unique.
- `src/submission.rs`: reading a submission, updating the stored table
  configuration, and appending a submission to the stored rows.
- `src/excel.rs`: the rows and configuration served to the spreadsheet page.
- `src/pages.rs`, `src/html.rs`, `src/table_page.rs`: the HTML pages.
- `src/access.rs`: which visitors may see the rows and the administrator's
  list, and the addresses the service listens on.
- `src/text.rs`: substring search and whitespace splitting.
- `src/json.rs`: the calls into `serde_json` and `std`, whose contracts are taken on trust.
