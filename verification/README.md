# crustbrowser

The verified core of CrustBrowser, a text-mode web browser, and of its two host
checks (IP intel from RDAP, and subdomain takeover).

- `src/` is the library, verified with Verus:
  - `text`: trimming, prefix and substring tests, decimal notation, lower-casing;
  - `utilts`: the command language typed at the prompt;
  - `network`: URL normalisation;
  - `search`: search-engine URLs;
  - `parsar`: reading title, headings, links and text out of an HTML page;
  - `render`: link labels for the page view;
  - `json`: the JSON tree that registry answers are parsed into and read from;
  - `ipcheck`: reading RDAP answers and recognising hosting providers;
  - `takeover`: matching hosts to takeover-prone services and judging responses;
  - `url_parts`: the calls into the `url` crate.
- `app/` is the program around it: the prompt loop, HTTP requests, JSON output,
  coloured output.
- `tests/` runs the library on concrete inputs.
