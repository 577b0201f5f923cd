# rocket_cors

Cross-origin resource sharing (CORS) for [Rocket](https://rocket.rs/)
applications, with the CORS logic verified by Verus.

## Layout

- `src/` is the verified library:
  - `options.rs`: `CorsOptions`, the settings a user writes, and `Cors`, the
    validated settings made by `CorsOptions::to_cors`;
  - `origins.rs`: allowed origins, their validation (exact origins must be
    URLs with a tuple origin, regexes must compile) and the matching of a
    request's origin;
  - `headers.rs`: the `Origin`, `Access-Control-Request-Method` and
    `Access-Control-Request-Headers` request headers and case-insensitive
    header names;
  - `validation.rs`: the validation of preflight and actual requests, and the
    responses built for them;
  - `response.rs`: the CORS response and the header operations that write it
    over a response;
  - `handlers.rs`: what the fairing, its error route, the request guard and
    the manual responder decide for a request;
  - `error.rs`, `method.rs`, `text.rs`: errors, HTTP methods, and the string
    functions used to read and write header values;
  - `external.rs`: the calls into `url`, `regex`, `unicase`, `rocket` and std,
    with the contracts they are trusted to meet;
  - `laws.rs`: properties of the library as a whole.
- `app/` holds what runs inside Rocket: the fairing, request guards and
  responders carry out the library's decisions on Rocket's requests and
  responses; it also holds the serde forms of the settings.
- `tests/` runs the library on concrete requests and settings.
