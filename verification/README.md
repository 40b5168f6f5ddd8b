# md2pdf

The core of a small markdown-to-PDF job service, verified with Verus.

- `src/` is the verified library: job and status messages, the queue
  configuration and the step-by-step set-up of the broker queues, publish and
  subscribe plans, the submission of a job (persist, check, store, publish,
  answer), the blob storage (paths, the store procedure, SHA-256
  digests), the checks and answers of the job API, and the parsing of the
  broker address.
- `app/` holds the services themselves (web API, converter, broker check): the
  HTTP routes, the broker and file-system calls, logging and JSON, driving the
  library's plans.
- `tests/` runs the library on concrete values.
