# template_window

A frameless desktop window template. The library (`src/`) holds the window's
decisions, each with a contract proved by Verus:

- `resize`: which edge or corner a pointer grabs for resizing, the cursor
  shown there, and what hovering and pressing do while the window is
  maximized or not; laws on mirror symmetry, the resize band and the content
  area.
- `frame`: how the client-drawn frame (rounded corners, resize bands, border,
  shadow, titlebar corners) adapts to tiling and to server-side decorations.
- `titlebar`: what a titlebar press does for a click count, the window-button
  icons, and the command that toggles maximize.
- `pages`: the page the window shows and how it is replaced.
- `geometry`: integer points and sizes (the application measures in
  sixty-fourths of a logical pixel).

`app/` is the gpui program around it: it draws the window, converts gpui
values to the library's and back, and performs what the library decides.
