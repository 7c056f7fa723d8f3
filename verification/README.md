# paper_plane_message

The message model of a Telegram client, written in Verus and verified.

- `src/sender.rs`: who sent a message (a user or a chat).
- `src/content.rs`: what a message holds, and the web page a text links to.
- `src/forward.rs`: where a forwarded message first came from.
- `src/message.rs`: a message, how TDLib updates change it and what the user
  interface is told of each change, and the requests that pin, unpin and
  delete it.
- `src/name.rs`: which name a message row shows for the sender.
- `src/property.rs`: the declarations of the message's properties: names,
  value types and flags.
- `src/value.rs`: the value of each message property.
- `src/link_preview.rs`: the row that previews a linked web page, and its
  property declaration.
- `src/laws.rs`: what holds across updates and across calls.

`app/` turns what TDLib sends into the model's plain values and sends the
model's requests through TDLib, and carries out what updates and new
messages on a link preview row call for.
