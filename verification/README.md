# compass

The decision logic of the Compass PHP extension, verified with Verus.

The extension fires USDT probes of the `compass` provider when PHP requests
begin and end, when PHP functions run longer than `compass.function_threshold`,
and when Drupal's `CacheableMetadata` factories return. `src/` decides which
probe fires and with which arguments; `app/` registers the hooks with PHP,
reads the engine's state into the library's plain types and fires the probes.

- `function_observer`: the stack of pending calls and the threshold rule.
- `observer`: which handlers a PHP function gets.
- `cli`, `cli_function`, `cli_request`, `fpm`: the request and function probes.
- `drupal_cache`: the cacheability probes.
- `server`: the request values read from `$_SERVER`.
- `text`: byte-string helpers (joining, C-string safety).
