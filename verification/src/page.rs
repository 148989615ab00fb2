use vstd::prelude::*;
use vstd::string::StringExecFns;

verus! {

/// The root page up to the place where the first snapshot is written in.
pub const HOME_PAGE_HEAD: &'static str = "
<!DOCTYPE html>
<html>
<head>
    <meta charset=\"utf-8\">
    <style>
        body {
            margin: 0;
            background: #1a1a1a;
            color: white;
            font-family: sans-serif;
            display: flex;
            flex-direction: column;
            height: 100vh;
            overflow: hidden;
        }
        #debug {
            position: absolute;
            opacity: 20%;
            top: 10px;
            left: 10px;
            font-size: 12px;
            background: rgba(0,0,0,0.7);
            padding: 5px;
            border-radius: 3px;
            z-index: 100;
        }
        #header {
            text-align: center;
            flex-shrink: 0;
        }
        #header h2 {
            margin: 5px 0;
            font-size: 28px;
        }
        #manga-score {
            font-size: 18px;
            margin: 0px;
        }
        #manga-comment {
            font-size: 14px;
            margin-bottom: 10px;
            color: #ccc;
        }
        #image-container {
            flex: 1;
            display: flex;
            justify-content: center;
            align-items: center;
            position: relative;
            min-height: 0;
        }
        #manga-img {
            padding-bottom: 10px;
            max-width: 100%;
            max-height: 100%;
            object-fit: contain;
            pointer-events: none;
        }
        .nav-arrow {
            position: absolute;
            top: 0;
            height: 100%;
            width: 33.33%;
            display: flex;
            align-items: center;
            cursor: pointer;
            opacity: 0;
            transition: opacity 0.3s;
            user-select: none;
            z-index: 10;
        }
        .nav-arrow:hover {
            opacity: 0.4;
        }
        #prev-arrow {
            left: 0;
            justify-content: flex-start;
            padding-left: 30px;
        }
        #next-arrow {
            right: 0;
            justify-content: flex-end;
            padding-right: 30px;
        }
        .arrow-char {
            font-size: 72px;
            color: white;
            text-shadow: 0 0 15px rgba(0,0,0,0.8);
        }
        #counters {
            position: absolute;
            bottom: 15px;
            right: 15px;
            font-size: 14px;
            background: rgba(0,0,0,0.5);
            padding: 8px 12px;
            border-radius: 4px;
        }
    </style>
</head>
<body>
    <div id=\"debug\">UUID: <span id=\"uuid\">-</span><br>Last: <span id=\"last-msg\">-</span></div>
    <div id=\"header\">
        <h2 id=\"manga-name\"></h2>
        <div id=\"manga-score\"></div>
        <div id=\"manga-comment\"></div>
    </div>
    <div id=\"image-container\">
        <img id=\"manga-img\" src=\"\" alt=\"\">
        <div class=\"nav-arrow\" id=\"prev-arrow\"><span class=\"arrow-char\">\u{2039}</span></div>
        <div class=\"nav-arrow\" id=\"next-arrow\"><span class=\"arrow-char\">\u{203a}</span></div>
    </div>
    <div id=\"counters\">
        <div>Manga: <span id=\"manga-counter\"></span></div>
        <div>Page: <span id=\"page-counter\"></span></div>
    </div>

    <script>
        const initialState = ";

/// The root page from behind the first snapshot to its end.
pub const HOME_PAGE_TAIL: &'static str = ";
        let ws = null;
        let uuid = crypto.randomUUID();
        let lastMsg = \"-\";

        document.getElementById('uuid').textContent = uuid;

        function updateUI(state) {
            document.getElementById('manga-name').textContent = state.manga_name;
            document.getElementById('manga-score').textContent = `${state.manga_score}/10`;
            document.getElementById('manga-comment').textContent = state.manga_comment || '';
            document.getElementById('manga-img').src = state.page_src;
            document.getElementById('manga-counter').textContent = `${state.manga_pos[0]} / ${state.manga_pos[1]}`;
            document.getElementById('page-counter').textContent = `${state.page_pos[0]} / ${state.page_pos[1]}`;
        }

        function connect() {
            ws = new WebSocket(`ws://${window.location.host}/ws`);

            ws.onopen = () => {
                lastMsg = \"Connected\";
                document.getElementById('last-msg').textContent = lastMsg;
                ws.send(JSON.stringify({ type: 'hello', uuid: uuid }));
            };

            ws.onmessage = (event) => {
                lastMsg = event.data.slice(0, 50) + '...';
                document.getElementById('last-msg').textContent = lastMsg;
                const state = JSON.parse(event.data);
                updateUI(state);
            };

            ws.onclose = () => {
                lastMsg = \"Disconnected\";
                document.getElementById('last-msg').textContent = lastMsg;
                setTimeout(connect, 3000); // Reconnect after 3s
            };
        }

        document.getElementById('prev-arrow').onclick = () => {
            ws.send(JSON.stringify({ type: 'prev', uuid: uuid }));
        };

        document.getElementById('next-arrow').onclick = () => {
            ws.send(JSON.stringify({ type: 'next', uuid: uuid }));
        };

        connect();
        updateUI(initialState);
    </script>
</body>
</html>
        ";

/// The root page: the fixed document with the JSON text of the current
/// snapshot written in as the state that the page starts from.
pub fn home_page(snapshot_json: &str) -> (html: String)
    ensures
        html@ == HOME_PAGE_HEAD@ + snapshot_json@ + HOME_PAGE_TAIL@,
{
    let mut html = String::from_str(HOME_PAGE_HEAD);
    html.append(snapshot_json);
    html.append(HOME_PAGE_TAIL);
    html
}

} // verus!
