# footager

A server that downloads footage and music for its users from Artgrid and
Artlist by driving a web browser.

- `src/` is the verified library: which site a user's URL belongs to
  (`site_dispatch`, `domain`), the names and ids that URLs give downloaded
  files (`footage_url`), the browser runs for Artgrid and Artlist as step
  machines that hand out one browser action at a time (`browser`, `artgrid`,
  `artlist`), the watch over the download directory (`download`), the admin
  gate (`admin`), the request limiter's permit handling (`limiter`), the job
  queue and controller (`job`, `queue`, `bg_thread`) and the driver
  configuration (`config`).
- `app/` is the program around it: the axum server, the tokio tasks, the
  fantoccini client that performs the browser actions, files, processes and
  system measurements.

Run without arguments, the program serves requests that a background task
works through one by one; run as `footager webserver`, it does the browser
work inside each request's handler and waits for the downloaded file there.
