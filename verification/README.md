# my_design_gui

The core of the my_design desktop GUI, verified with Verus.

- `src/pages.rs`: the page list that the scripting side fills through JSON,
  and the per-page updates (generated mark, preview, prompt, selection).
- `src/json.rs`: the serde_json calls that read the page list.
- `src/view.rs`: the window's state machine (input, page list, editor,
  batch view), key handling, and the commands sent to the scripting side.
- `src/layout.rs`: what the views show apart from colours and sizes.
- `src/text.rs`: white space, trimming, decimal numbers.
- `src/laws.rs`: properties that relate the operations to one another.
- `app/`: the C ABI and the gpui window around the library.
