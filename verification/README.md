# better_spotify

A Spotify companion: true random shuffles of playlists, import of playlists into a Neo4j
music graph, song analysis by a language model, and playlists generated from the graph.

- `src/` is the library, verified with Verus: the records exchanged with Spotify and the
  graph (`models`), text utilities (`text`), PKCE and sign-in (`pkce`, `auth`, `session`),
  paging through Spotify's lists (`paging`), the shuffle (`shuffle`), the graph writes
  (`graph`), the playlist generator's query (`generator`), reading the model's analyses
  (`llm`), the library reads (`library`), the reports (`report`) and what the pages decide
  (`pages`).
- `tests/` runs the library on concrete values.
- `app/` is the server around it: the axum routes, the HTTP calls to Spotify and OpenRouter,
  and the Neo4j queries. The server expects `SPOTIFY_CLIENT_ID`, `SPOTIFY_CLIENT_SECRET`,
  `SPOTIFY_REDIRECT_URI`, `NEO4J_URI`, `NEO4J_USER`, `NEO4J_PASS` and `OPENROUTER_API_KEY`,
  and reads the model's system prompt from `llm_system_prompt.txt` (or the path in
  `LLM_SYSTEM_PROMPT`).
