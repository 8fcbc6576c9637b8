# chat_handler

The command handler of a chat bot that helps with live streams: viewers and moderators ask
for things in chat, and the bot switches scenes, starts and stops the stream, and tells how
the servers are doing.

`src/` is the library. It decides which command a message means, who may use it and how
often, and it carries commands out as conversations: a turn tells what to do and what to ask
the application, and an answer leads to the next turn. Functions state what they return, and
Verus proves it; where the clock or chance decides, they state what is handed to it and what
holds whatever comes back. The modules `laws`, `runs` and `rules` hold what is proved of all
of them together: that conversations end, that changes are saved, what a whole conversation
does, who may do what.

`app/` is the rest of the bot's chat side: it receives messages, performs what a turn asks
for, puts messages in words, and makes the requests to Twitch.

`tests/` runs the library on examples.
