# windows_iap

In-app purchases through the Microsoft Store, for a desktop plugin.

- `src/` is the library: which products a caller sees, what comes of a purchase,
  which purchases are restored, what a purchase token holds. It works on plain
  values, and every function is verified against its contract with Verus.
- `app/` is the Windows side: it reads the Store's objects into those plain
  values, keeps the Store context, and sends events to the frontend.
- `tests/` runs the library.

Callers know products by the ids that the developer gave them. The Store's own
ids stay inside; a purchase token carries one, so that a consumable can be
reported as used up later.
