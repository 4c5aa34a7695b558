# Firm wallet gateway: the Airwallex webhook receiver

The gateway receives Airwallex webhook notifications, checks that they are signed with the
shared secret, and records each authenticated event once. It does not start, approve or execute
a transfer on account of a notification.

`src/` is the receiver as a Verus library:

- `text`: white space, ASCII case, hexadecimal digits;
- `signature`: the HMAC-SHA256 signature over timestamp and raw body;
- `headers`: the text of an HTTP header;
- `event`: events as they arrive and as they are recorded;
- `recorder`: the bounded record that takes each event id once;
- `response`: answers, and the reasons for a refusal;
- `config`: the settings and their defaults;
- `server`: the steps from a request to its answer;
- `laws`: what holds of the whole.

`app/` is the program around it: it reads the environment, listens for HTTP, reads bodies,
parses JSON and logs.

## Configuration

- `AIRWALLEX_WEBHOOK_BIND_ADDR`: address of the webhook listener, `127.0.0.1` by default.
- `AIRWALLEX_WEBHOOK_PORT`: port of the webhook listener, `18081` by default.
- `AIRWALLEX_WEBHOOK_SECRET`: the secret that notifications to `POST /webhooks/airwallex` are
  signed with. It must be set and must not be blank.
- `GATEWAY_SERVICE_PORT`: port of the gRPC server, `20221` by default.

Keep the listener on a trusted network address behind a reverse proxy that terminates TLS. The
record is held in memory: deduplication does not outlive the process and is not shared between
replicas.
