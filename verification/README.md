# asset

An asset service: clients upload files (images, documents, videos) for a
tenant; the service stores them in an S3-compatible bucket, keeps a record
of each in MongoDB, and for images also stores AVIF renditions of 1200, 800
and 400 pixels.

- `src/` is the library, verified with Verus. The upload, the legacy image
  upload and the deletion are state machines (`ingest`, `publish`,
  `service::Deletion`): the caller performs each action (store an object,
  save or remove a record, read a form field) and hands the outcome back.
  Classification of uploads (`domain`), object keys and URLs (`layout`),
  form handling (`intake`) and configuration (`config`) are plain
  functions with contracts.
- `app/` is the HTTP server (axum), the MongoDB repository and the MinIO
  client; it runs the library's machines.
