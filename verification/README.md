# scalelm

A service that hands prompts to a language model through a RabbitMQ broker.

* `http_frontend` takes `POST /api/generate` requests, publishes each prompt
  as a job on the jobs queue under a fresh correlation id, and waits for the
  reply on its own exclusive response queue.
* `llm_handler` consumes the jobs queue one job at a time, asks the Ollama
  server for an answer, publishes it to the queue the job names, and
  acknowledges the job.
* `consumer` logs and acknowledges jobs.

`src/` is the verified library (Verus): settings and their parsing, the
queue and message plans, the JSON bodies, the table of requests waiting for
replies, and the job state machine, each with its contract, plus proofs of
the laws that tie them together. `app/` runs the processes: environment,
broker and HTTP I/O, and serde.
