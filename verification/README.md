# chromerunner

Multi-browser automation for Chrome (Chrome DevTools Protocol over
WebSocket), Firefox (WebDriver BiDi over WebSocket) and Safari (WebDriver
classic over HTTP).

The protocol logic is a library verified with Verus (`src/`):

- `json`: the JSON document model the protocols exchange, with its view.
- `router`: the table of commands awaiting their reply; ids, waiters, and
  the outcome of a wait.
- `cdp`, `bidi`: framing of commands and routing of incoming messages to
  the waiting command or to the event subscribers.
- `chrome`, `firefox`, `safari`, `webdriver`: the commands and REST bodies
  behind each browser and tab operation, and the decoding of their replies.
- `bidi_value`, `ieee`: conversion of BiDi remote values to plain JSON,
  including how numbers read back after travelling as doubles.
- `launcher`, `transport`: command lines of the browsers and drivers,
  endpoint addresses, request headers and status checks.
- `types`, `error`, `text`, `demo`: shared result types, errors, text
  helpers and the demo session's scripts.

`app/` holds the command-line program and the I/O around the library:
processes, sockets, HTTP and WebSocket connections, the async clients and
the JSON reader and writer.
