# mongo_repository

A repository layer over one MongoDB collection.

- `src/` is the verified library: the configuration builder and the
  client settings derived from it (`config`), the text of a configuration
  (`text`), ordered key/value entries (`entries`), BSON documents and their
  time stamps (`document`, `datetime`), JSON values and the flattening of
  extended-JSON dates (`json`), the serialization of JSON values into
  BSON documents and back (`bson_json`), result pages (`pagination`), and the
  decisions each repository operation makes around its database call
  (`service`), with the repository's errors (`error`).
- `app/` holds the asynchronous MongoDB operations, the shared client and
  the conversions between the driver's values and the library's.
- `tests/` exercises the library on concrete values.

A BSON document and a JSON object are held in `src/` as ordered entry
lists (`entries`) rather than as `bson::Document` and `serde_json::Map`
behind trusted wrappers: the values in those maps are outside types
(`Bson`, `serde_json::Value`) that the library has to read (date-times,
strings, nested objects), so the lists hold the library's own values that
stand for them, and the maps' lookup and insert rules are stated and proved
over the lists. The conversions to and from the driver's types are in
`bson_json` (for serialization) and in `app/convert.rs` (for the driver).
