# issue_bot

A Discord bot that searches the issues and pull requests of a GitHub repository and posts
them as message cards.

- `src/` is the verified library: option parsing, the texts and cards the bot posts, the
  Markdown clean-up of issue bodies, the menu of search results, the map of remembered
  numbers, and the registered commands. Contracts are stated over `Seq<char>` views and
  proved with Verus.
- `app/` connects it to Discord (serenity) and GitHub (octocrab): the event handler, the
  network calls and the logging set-up.
- `tests/` runs the library on concrete values.
