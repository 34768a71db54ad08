//! HTML pages of the admin web interface.

use vstd::prelude::*;
use crate::text::{decimal, push_char, push_str, to_uppercase, upper_of, write_decimal, chars_of};
use crate::client_types::{f64_of, fixed_text, f64_value, write_fixed};

verus! {

/// The HTML escape of one character: `&`, `<`, `>`, `"` and `'` become entities.
pub open spec fn html_escape_char(c: char) -> Seq<char> {
    if c == '&' {
        "&amp;"@
    } else if c == '<' {
        "&lt;"@
    } else if c == '>' {
        "&gt;"@
    } else if c == '"' {
        "&quot;"@
    } else if c == '\'' {
        "&#39;"@
    } else {
        seq![c]
    }
}

/// The HTML escape of a text, character by character.
pub open spec fn html_escape_text(s: Seq<char>) -> Seq<char>
    decreases s.len(),
{
    if s.len() == 0 {
        seq![]
    } else {
        html_escape_text(s.drop_last()) + html_escape_char(s.last())
    }
}

/// The characters that open markup or end attribute values.
pub open spec fn is_markup_char(c: char) -> bool {
    c == '<' || c == '>' || c == '"' || c == '\''
}

proof fn lemma_escaped_char_is_inert(c: char)
    ensures
        forall|i: int| 0 <= i < html_escape_char(c).len() ==> !is_markup_char(#[trigger] html_escape_char(c)[i]),
{
    reveal_strlit("&amp;");
    reveal_strlit("&lt;");
    reveal_strlit("&gt;");
    reveal_strlit("&quot;");
    reveal_strlit("&#39;");
}

/// Escaped text cannot open a tag or leave an attribute value: it holds none of `<`, `>`,
/// `"` and `'`.
pub proof fn law_html_escape_removes_markup(s: Seq<char>)
    ensures
        forall|i: int| 0 <= i < html_escape_text(s).len() ==> !is_markup_char(#[trigger] html_escape_text(s)[i]),
    decreases s.len(),
{
    if s.len() > 0 {
        law_html_escape_removes_markup(s.drop_last());
        lemma_escaped_char_is_inert(s.last());
        let a = html_escape_text(s.drop_last());
        let b = html_escape_char(s.last());
        assert forall|i: int| 0 <= i < (a + b).len() implies !is_markup_char(#[trigger] (a + b)[i]) by {
            if i < a.len() {
                assert((a + b)[i] == a[i]);
            } else {
                assert((a + b)[i] == b[i - a.len()]);
            }
        }
    }
}

/// HTML-escapes a text for use inside elements and attribute values.
pub fn html_escape(s: &str) -> (r: String)
    ensures
        r@ == html_escape_text(s@),
{
    let a = chars_of(s);
    let mut r = String::new();
    let mut i: usize = 0;
    while i < a.len()
        invariant
            a@ == s@,
            i <= a@.len(),
            r@ == html_escape_text(a@.subrange(0, i as int)),
        decreases a@.len() - i,
    {
        let c = a[i];
        if c == '&' {
            push_str(&mut r, "&amp;");
        } else if c == '<' {
            push_str(&mut r, "&lt;");
        } else if c == '>' {
            push_str(&mut r, "&gt;");
        } else if c == '"' {
            push_str(&mut r, "&quot;");
        } else if c == '\'' {
            push_str(&mut r, "&#39;");
        } else {
            push_char(&mut r, c);
            assert(seq![c] =~= html_escape_char(c));
        }
        proof {
            let next = a@.subrange(0, i + 1);
            assert(next.drop_last() =~= a@.subrange(0, i as int));
            assert(next.last() == c);
        }
        i = i + 1;
    }
    assert(a@.subrange(0, a@.len() as int) =~= a@);
    r
}

/// The base64 alphabet character of a six-bit value.
pub open spec fn b64_char(v: nat) -> char {
    if v < 26 {
        (65 + v) as char
    } else if v < 52 {
        (71 + v) as char
    } else if v < 62 {
        (v - 4) as char
    } else if v == 62 {
        '+'
    } else {
        '/'
    }
}

/// Standard padded base64 of bytes, three bytes at a time.
pub open spec fn base64_text_of(d: Seq<u8>) -> Seq<char>
    decreases d.len(),
{
    if d.len() == 0 {
        seq![]
    } else if d.len() == 1 {
        seq![b64_char((d[0] / 4) as nat), b64_char(((d[0] % 4) * 16) as nat), '=', '=']
    } else if d.len() == 2 {
        seq![
            b64_char((d[0] / 4) as nat),
            b64_char(((d[0] % 4) * 16 + d[1] / 16) as nat),
            b64_char(((d[1] % 16) * 4) as nat),
            '=',
        ]
    } else {
        seq![
            b64_char((d[0] / 4) as nat),
            b64_char(((d[0] % 4) * 16 + d[1] / 16) as nat),
            b64_char(((d[1] % 16) * 4 + d[2] / 64) as nat),
            b64_char((d[2] % 64) as nat),
        ] + base64_text_of(d.skip(3))
    }
}

fn b64_digit(v: u8) -> (c: char)
    requires
        v < 64,
    ensures
        c == b64_char(v as nat),
{
    let b: u8 = if v < 26 {
        65 + v
    } else if v < 52 {
        71 + v
    } else if v < 62 {
        v - 4
    } else if v == 62 {
        43
    } else {
        47
    };
    b as char
}

/// Base64-encodes bytes (standard alphabet, padded), as the download page embeds files.
pub fn base64_encode(data: &[u8]) -> (r: String)
    ensures
        r@ == base64_text_of(data@),
{
    let mut r = String::new();
    let mut i: usize = 0;
    assert(data@.skip(0) =~= data@);
    while i < data.len()
        invariant
            i <= data@.len(),
            r@ + base64_text_of(data@.skip(i as int)) == base64_text_of(data@),
        decreases data@.len() - i,
    {
        let rest = data.len() - i;
        let ghost tail = data@.skip(i as int);
        let ghost before = r@;
        let d0 = data[i];
        if rest == 1 {
            push_char(&mut r, b64_digit(d0 / 4));
            push_char(&mut r, b64_digit((d0 % 4) * 16));
            push_char(&mut r, '=');
            push_char(&mut r, '=');
            proof {
                assert(tail.len() == 1 && tail[0] == d0);
                assert(r@ =~= before + base64_text_of(tail));
                assert(data@.skip(data@.len() as int) =~= Seq::<u8>::empty());
            }
            i = data.len();
        } else if rest == 2 {
            let d1 = data[i + 1];
            push_char(&mut r, b64_digit(d0 / 4));
            push_char(&mut r, b64_digit((d0 % 4) * 16 + d1 / 16));
            push_char(&mut r, b64_digit((d1 % 16) * 4));
            push_char(&mut r, '=');
            proof {
                assert(tail.len() == 2 && tail[0] == d0 && tail[1] == d1);
                assert(r@ =~= before + base64_text_of(tail));
                assert(data@.skip(data@.len() as int) =~= Seq::<u8>::empty());
            }
            i = data.len();
        } else {
            let d1 = data[i + 1];
            let d2 = data[i + 2];
            push_char(&mut r, b64_digit(d0 / 4));
            push_char(&mut r, b64_digit((d0 % 4) * 16 + d1 / 16));
            push_char(&mut r, b64_digit((d1 % 16) * 4 + d2 / 64));
            push_char(&mut r, b64_digit(d2 % 64));
            proof {
                assert(tail[0] == d0 && tail[1] == d1 && tail[2] == d2);
                assert(tail.skip(3) =~= data@.skip(i + 3));
                let quad = seq![
                    b64_char((d0 / 4) as nat),
                    b64_char(((d0 % 4) * 16 + d1 / 16) as nat),
                    b64_char(((d1 % 16) * 4 + d2 / 64) as nat),
                    b64_char((d2 % 64) as nat),
                ];
                assert(r@ =~= before + quad);
                assert(base64_text_of(tail) == quad + base64_text_of(tail.skip(3)));
                assert(r@ + base64_text_of(data@.skip(i + 3)) =~= before + base64_text_of(tail));
            }
            i = i + 3;
        }
    }
    assert(base64_text_of(data@.skip(i as int)) =~= Seq::<char>::empty());
    assert(r@ + Seq::<char>::empty() =~= r@);
    r
}

/// Text of `char::to_uppercase` collected into a string (Unicode uppercase mapping).
pub uninterp spec fn char_upper_text(c: char) -> Seq<char>;

/// `char::to_uppercase` collected into a string.
#[verifier::external_body]
pub(crate) fn char_to_uppercase(c: char) -> (r: String)
    ensures
        r@ == char_upper_text(c),
{
    c.to_uppercase().to_string()
}

/// The first character of a text, or `?` for an empty one.
pub open spec fn first_or_question(s: Seq<char>) -> char {
    if s.len() > 0 { s[0] } else { '?' }
}

fn first_char_or_question(s: &str) -> (c: char)
    ensures
        c == first_or_question(s@),
{
    let a = chars_of(s);
    if a.len() > 0 { a[0] } else { '?' }
}

/// The page frame: head with styles and scripts, and the content in the body.
pub open spec fn base_text(title: Seq<char>, content: Seq<char>) -> Seq<char> {
    r#"<!DOCTYPE html>
<html lang="en" class="h-full">
<head>
    <meta charset="UTF-8">
    <meta name="viewport" content="width=device-width, initial-scale=1.0">
    <title>"#@ + title + r#" | CoreVPN</title>
    <script src="https://cdn.tailwindcss.com"></script>
    <link rel="preconnect" href="https://fonts.googleapis.com">
    <link rel="preconnect" href="https://fonts.gstatic.com" crossorigin>
    <link href="https://fonts.googleapis.com/css2?family=JetBrains+Mono:wght@400;500;600;700&family=Outfit:wght@300;400;500;600;700&display=swap" rel="stylesheet">
    <script>
        tailwind.config = {
            theme: {
                extend: {
                    colors: {
                        'cyber': {
                            50: '#f0fdf9',
                            100: '#ccfbef',
                            200: '#99f6df',
                            300: '#5eeacb',
                            400: '#2dd4b3',
                            500: '#14b89a',
                            600: '#0d947d',
                            700: '#0f7666',
                            800: '#115e53',
                            900: '#134e45',
                            950: '#042f2a',
                        },
                        'void': {
                            50: '#f6f6f7',
                            100: '#e2e3e5',
                            200: '#c4c5ca',
                            300: '#a0a1a8',
                            400: '#7c7d85',
                            500: '#616269',
                            600: '#4d4e54',
                            700: '#3f4044',
                            800: '#27282b',
                            900: '#1a1b1e',
                            950: '#0d0e10',
                        },
                        'neon': {
                            pink: '#ff2d92',
                            blue: '#00d4ff',
                            green: '#00ff88',
                            yellow: '#ffd60a',
                            purple: '#a855f7',
                        },
                    },
                    fontFamily: {
                        'display': ['Outfit', 'system-ui', 'sans-serif'],
                        'mono': ['JetBrains Mono', 'monospace'],
                    },
                    animation: {
                        'pulse-slow': 'pulse 3s ease-in-out infinite',
                        'glow': 'glow 2s ease-in-out infinite alternate',
                    },
                },
            },
        }
    </script>
    <style>
        body {
            font-family: 'Outfit', system-ui, sans-serif;
            background: linear-gradient(135deg, #0d0e10 0%, #1a1b1e 50%, #0d0e10 100%);
        }
        .glass {
            background: rgba(26, 27, 30, 0.7);
            backdrop-filter: blur(20px);
            border: 1px solid rgba(255, 255, 255, 0.05);
        }
        .glow-green {
            box-shadow: 0 0 20px rgba(0, 255, 136, 0.3), 0 0 40px rgba(0, 255, 136, 0.1);
        }
        .glow-blue {
            box-shadow: 0 0 20px rgba(0, 212, 255, 0.3), 0 0 40px rgba(0, 212, 255, 0.1);
        }
        .glow-pink {
            box-shadow: 0 0 20px rgba(255, 45, 146, 0.3), 0 0 40px rgba(255, 45, 146, 0.1);
        }
        .text-glow {
            text-shadow: 0 0 10px currentColor, 0 0 20px currentColor;
        }
        .grid-bg {
            background-image:
                linear-gradient(rgba(0, 255, 136, 0.03) 1px, transparent 1px),
                linear-gradient(90deg, rgba(0, 255, 136, 0.03) 1px, transparent 1px);
            background-size: 50px 50px;
        }
        .stat-card {
            transition: all 0.3s ease;
        }
        .stat-card:hover {
            transform: translateY(-4px);
        }
        @keyframes scanline {
            0% { transform: translateY(-100%); }
            100% { transform: translateY(100vh); }
        }
        .scanline::before {
            content: '';
            position: fixed;
            top: 0;
            left: 0;
            right: 0;
            height: 4px;
            background: linear-gradient(transparent, rgba(0, 255, 136, 0.1), transparent);
            animation: scanline 8s linear infinite;
            pointer-events: none;
            z-index: 1000;
        }
    </style>
</head>
<body class="h-full text-void-100 antialiased scanline grid-bg">
    <div class="min-h-full">
        "#@ + content + r#"
    </div>
</body>
</html>"#@
}

/// Base HTML template with Tailwind CSS CDN and shared styles.
pub fn base(title: &str, content: &str) -> (r: String)
    ensures
        r@ == base_text(title@, content@),
{
    let mut r = r#"<!DOCTYPE html>
<html lang="en" class="h-full">
<head>
    <meta charset="UTF-8">
    <meta name="viewport" content="width=device-width, initial-scale=1.0">
    <title>"#.to_owned();
    push_str(&mut r, title);
    push_str(&mut r, r#" | CoreVPN</title>
    <script src="https://cdn.tailwindcss.com"></script>
    <link rel="preconnect" href="https://fonts.googleapis.com">
    <link rel="preconnect" href="https://fonts.gstatic.com" crossorigin>
    <link href="https://fonts.googleapis.com/css2?family=JetBrains+Mono:wght@400;500;600;700&family=Outfit:wght@300;400;500;600;700&display=swap" rel="stylesheet">
    <script>
        tailwind.config = {
            theme: {
                extend: {
                    colors: {
                        'cyber': {
                            50: '#f0fdf9',
                            100: '#ccfbef',
                            200: '#99f6df',
                            300: '#5eeacb',
                            400: '#2dd4b3',
                            500: '#14b89a',
                            600: '#0d947d',
                            700: '#0f7666',
                            800: '#115e53',
                            900: '#134e45',
                            950: '#042f2a',
                        },
                        'void': {
                            50: '#f6f6f7',
                            100: '#e2e3e5',
                            200: '#c4c5ca',
                            300: '#a0a1a8',
                            400: '#7c7d85',
                            500: '#616269',
                            600: '#4d4e54',
                            700: '#3f4044',
                            800: '#27282b',
                            900: '#1a1b1e',
                            950: '#0d0e10',
                        },
                        'neon': {
                            pink: '#ff2d92',
                            blue: '#00d4ff',
                            green: '#00ff88',
                            yellow: '#ffd60a',
                            purple: '#a855f7',
                        },
                    },
                    fontFamily: {
                        'display': ['Outfit', 'system-ui', 'sans-serif'],
                        'mono': ['JetBrains Mono', 'monospace'],
                    },
                    animation: {
                        'pulse-slow': 'pulse 3s ease-in-out infinite',
                        'glow': 'glow 2s ease-in-out infinite alternate',
                    },
                },
            },
        }
    </script>
    <style>
        body {
            font-family: 'Outfit', system-ui, sans-serif;
            background: linear-gradient(135deg, #0d0e10 0%, #1a1b1e 50%, #0d0e10 100%);
        }
        .glass {
            background: rgba(26, 27, 30, 0.7);
            backdrop-filter: blur(20px);
            border: 1px solid rgba(255, 255, 255, 0.05);
        }
        .glow-green {
            box-shadow: 0 0 20px rgba(0, 255, 136, 0.3), 0 0 40px rgba(0, 255, 136, 0.1);
        }
        .glow-blue {
            box-shadow: 0 0 20px rgba(0, 212, 255, 0.3), 0 0 40px rgba(0, 212, 255, 0.1);
        }
        .glow-pink {
            box-shadow: 0 0 20px rgba(255, 45, 146, 0.3), 0 0 40px rgba(255, 45, 146, 0.1);
        }
        .text-glow {
            text-shadow: 0 0 10px currentColor, 0 0 20px currentColor;
        }
        .grid-bg {
            background-image:
                linear-gradient(rgba(0, 255, 136, 0.03) 1px, transparent 1px),
                linear-gradient(90deg, rgba(0, 255, 136, 0.03) 1px, transparent 1px);
            background-size: 50px 50px;
        }
        .stat-card {
            transition: all 0.3s ease;
        }
        .stat-card:hover {
            transform: translateY(-4px);
        }
        @keyframes scanline {
            0% { transform: translateY(-100%); }
            100% { transform: translateY(100vh); }
        }
        .scanline::before {
            content: '';
            position: fixed;
            top: 0;
            left: 0;
            right: 0;
            height: 4px;
            background: linear-gradient(transparent, rgba(0, 255, 136, 0.1), transparent);
            animation: scanline 8s linear infinite;
            pointer-events: none;
            z-index: 1000;
        }
    </style>
</head>
<body class="h-full text-void-100 antialiased scanline grid-bg">
    <div class="min-h-full">
        "#);
    push_str(&mut r, content);
    push_str(&mut r, r#"
    </div>
</body>
</html>"#);
    r
}

/// One navigation link; the active one is highlighted.
pub open spec fn nav_item_text(href: Seq<char>, icon: Seq<char>, label: Seq<char>, active: bool) -> Seq<char> {
    r#"<a href=""#@ + href + r#"" class="flex items-center gap-3 px-4 py-3 "#@ + if active { r#"bg-neon-green/10 text-neon-green border-l-2 border-neon-green"#@ } else { r#"text-void-400 hover:text-void-100 hover:bg-void-800/50 border-l-2 border-transparent"#@ } + r#" transition-all">
                <svg class="w-5 h-5" fill="none" stroke="currentColor" viewBox="0 0 24 24">"#@ + icon + r#"</svg>
                <span class="font-medium">"#@ + label + r#"</span>
            </a>"#@
}

fn nav_item(href: &str, icon: &str, label: &str, active: bool) -> (r: String)
    ensures
        r@ == nav_item_text(href@, icon@, label@, active),
{
    let active_class = if active { r#"bg-neon-green/10 text-neon-green border-l-2 border-neon-green"# } else { r#"text-void-400 hover:text-void-100 hover:bg-void-800/50 border-l-2 border-transparent"# };
    let mut r = r#"<a href=""#.to_owned();
    push_str(&mut r, href);
    push_str(&mut r, r#"" class="flex items-center gap-3 px-4 py-3 "#);
    push_str(&mut r, active_class);
    push_str(&mut r, r#" transition-all">
                <svg class="w-5 h-5" fill="none" stroke="currentColor" viewBox="0 0 24 24">"#);
    push_str(&mut r, icon);
    push_str(&mut r, r#"</svg>
                <span class="font-medium">"#);
    push_str(&mut r, label);
    push_str(&mut r, r#"</span>
            </a>"#);
    r
}

/// The navigation sidebar with the page `active` highlighted.
pub open spec fn nav_text(active: Seq<char>) -> Seq<char> {
    r#"
        <aside class="fixed left-0 top-0 h-full w-64 glass border-r border-void-700/30 z-40">
            <div class="p-6 border-b border-void-700/30">
                <div class="flex items-center gap-3">
                    <div class="w-10 h-10 rounded-lg bg-gradient-to-br from-neon-green to-cyber-600 flex items-center justify-center glow-green">
                        <svg class="w-6 h-6 text-void-950" fill="currentColor" viewBox="0 0 24 24">
                            <path d="M12 2L2 7l10 5 10-5-10-5zM2 17l10 5 10-5M2 12l10 5 10-5"/>
                        </svg>
                    </div>
                    <div>
                        <h1 class="text-lg font-bold text-neon-green text-glow">CoreVPN</h1>
                        <p class="text-xs text-void-500 font-mono">v0.1.0</p>
                    </div>
                </div>
            </div>
            <nav class="py-4 space-y-1">
                "#@ + nav_item_text(r#"/admin"#@, r#"<path stroke-linecap="round" stroke-linejoin="round" stroke-width="2" d="M4 5a1 1 0 011-1h14a1 1 0 011 1v2a1 1 0 01-1 1H5a1 1 0 01-1-1V5zM4 13a1 1 0 011-1h6a1 1 0 011 1v6a1 1 0 01-1 1H5a1 1 0 01-1-1v-6zM16 13a1 1 0 011-1h2a1 1 0 011 1v6a1 1 0 01-1 1h-2a1 1 0 01-1-1v-6z"/>"#@, r#"Dashboard"#@, active == r#"dashboard"#@) + nav_item_text(r#"/admin/clients"#@, r#"<path stroke-linecap="round" stroke-linejoin="round" stroke-width="2" d="M12 4.354a4 4 0 110 5.292M15 21H3v-1a6 6 0 0112 0v1zm0 0h6v-1a6 6 0 00-9-5.197M13 7a4 4 0 11-8 0 4 4 0 018 0z"/>"#@, r#"Clients"#@, active == r#"clients"#@) + nav_item_text(r#"/admin/sessions"#@, r#"<path stroke-linecap="round" stroke-linejoin="round" stroke-width="2" d="M8.111 16.404a5.5 5.5 0 017.778 0M12 20h.01m-7.08-7.071c3.904-3.905 10.236-3.905 14.141 0M1.394 9.393c5.857-5.857 15.355-5.857 21.213 0"/>"#@, r#"Sessions"#@, active == r#"sessions"#@) + nav_item_text(r#"/admin/settings"#@, r#"<path stroke-linecap="round" stroke-linejoin="round" stroke-width="2" d="M10.325 4.317c.426-1.756 2.924-1.756 3.35 0a1.724 1.724 0 002.573 1.066c1.543-.94 3.31.826 2.37 2.37a1.724 1.724 0 001.065 2.572c1.756.426 1.756 2.924 0 3.35a1.724 1.724 0 00-1.066 2.573c.94 1.543-.826 3.31-2.37 2.37a1.724 1.724 0 00-2.572 1.065c-.426 1.756-2.924 1.756-3.35 0a1.724 1.724 0 00-2.573-1.066c-1.543.94-3.31-.826-2.37-2.37a1.724 1.724 0 00-1.065-2.572c-1.756-.426-1.756-2.924 0-3.35a1.724 1.724 0 001.066-2.573c-.94-1.543.826-3.31 2.37-2.37.996.608 2.296.07 2.572-1.065z"/><path stroke-linecap="round" stroke-linejoin="round" stroke-width="2" d="M15 12a3 3 0 11-6 0 3 3 0 016 0z"/>"#@, r#"Settings"#@, active == r#"settings"#@) + r#"
            </nav>
            <div class="absolute bottom-0 left-0 right-0 p-4 border-t border-void-700/30">
                <div class="flex items-center gap-2 text-xs text-void-500">
                    <span class="w-2 h-2 rounded-full bg-neon-green animate-pulse"></span>
                    <span>Server Online</span>
                </div>
            </div>
        </aside>
    "#@
}

/// Navigation component.
pub fn nav(active: &str) -> (r: String)
    ensures
        r@ == nav_text(active@),
{
    let mut items_html = String::new();
    let item = nav_item(r#"/admin"#, r#"<path stroke-linecap="round" stroke-linejoin="round" stroke-width="2" d="M4 5a1 1 0 011-1h14a1 1 0 011 1v2a1 1 0 01-1 1H5a1 1 0 01-1-1V5zM4 13a1 1 0 011-1h6a1 1 0 011 1v6a1 1 0 01-1 1H5a1 1 0 01-1-1v-6zM16 13a1 1 0 011-1h2a1 1 0 011 1v6a1 1 0 01-1 1h-2a1 1 0 01-1-1v-6z"/>"#, r#"Dashboard"#, crate::text::str_eq(active, r#"dashboard"#));
    push_str(&mut items_html, item.as_str());
    let item = nav_item(r#"/admin/clients"#, r#"<path stroke-linecap="round" stroke-linejoin="round" stroke-width="2" d="M12 4.354a4 4 0 110 5.292M15 21H3v-1a6 6 0 0112 0v1zm0 0h6v-1a6 6 0 00-9-5.197M13 7a4 4 0 11-8 0 4 4 0 018 0z"/>"#, r#"Clients"#, crate::text::str_eq(active, r#"clients"#));
    push_str(&mut items_html, item.as_str());
    let item = nav_item(r#"/admin/sessions"#, r#"<path stroke-linecap="round" stroke-linejoin="round" stroke-width="2" d="M8.111 16.404a5.5 5.5 0 017.778 0M12 20h.01m-7.08-7.071c3.904-3.905 10.236-3.905 14.141 0M1.394 9.393c5.857-5.857 15.355-5.857 21.213 0"/>"#, r#"Sessions"#, crate::text::str_eq(active, r#"sessions"#));
    push_str(&mut items_html, item.as_str());
    let item = nav_item(r#"/admin/settings"#, r#"<path stroke-linecap="round" stroke-linejoin="round" stroke-width="2" d="M10.325 4.317c.426-1.756 2.924-1.756 3.35 0a1.724 1.724 0 002.573 1.066c1.543-.94 3.31.826 2.37 2.37a1.724 1.724 0 001.065 2.572c1.756.426 1.756 2.924 0 3.35a1.724 1.724 0 00-1.066 2.573c.94 1.543-.826 3.31-2.37 2.37a1.724 1.724 0 00-2.572 1.065c-.426 1.756-2.924 1.756-3.35 0a1.724 1.724 0 00-2.573-1.066c-1.543.94-3.31-.826-2.37-2.37a1.724 1.724 0 00-1.065-2.572c-1.756-.426-1.756-2.924 0-3.35a1.724 1.724 0 001.066-2.573c-.94-1.543.826-3.31 2.37-2.37.996.608 2.296.07 2.572-1.065z"/><path stroke-linecap="round" stroke-linejoin="round" stroke-width="2" d="M15 12a3 3 0 11-6 0 3 3 0 016 0z"/>"#, r#"Settings"#, crate::text::str_eq(active, r#"settings"#));
    push_str(&mut items_html, item.as_str());
    assert(items_html@ =~= nav_item_text(r#"/admin"#@, r#"<path stroke-linecap="round" stroke-linejoin="round" stroke-width="2" d="M4 5a1 1 0 011-1h14a1 1 0 011 1v2a1 1 0 01-1 1H5a1 1 0 01-1-1V5zM4 13a1 1 0 011-1h6a1 1 0 011 1v6a1 1 0 01-1 1H5a1 1 0 01-1-1v-6zM16 13a1 1 0 011-1h2a1 1 0 011 1v6a1 1 0 01-1 1h-2a1 1 0 01-1-1v-6z"/>"#@, r#"Dashboard"#@, active@ == r#"dashboard"#@) + nav_item_text(r#"/admin/clients"#@, r#"<path stroke-linecap="round" stroke-linejoin="round" stroke-width="2" d="M12 4.354a4 4 0 110 5.292M15 21H3v-1a6 6 0 0112 0v1zm0 0h6v-1a6 6 0 00-9-5.197M13 7a4 4 0 11-8 0 4 4 0 018 0z"/>"#@, r#"Clients"#@, active@ == r#"clients"#@) + nav_item_text(r#"/admin/sessions"#@, r#"<path stroke-linecap="round" stroke-linejoin="round" stroke-width="2" d="M8.111 16.404a5.5 5.5 0 017.778 0M12 20h.01m-7.08-7.071c3.904-3.905 10.236-3.905 14.141 0M1.394 9.393c5.857-5.857 15.355-5.857 21.213 0"/>"#@, r#"Sessions"#@, active@ == r#"sessions"#@) + nav_item_text(r#"/admin/settings"#@, r#"<path stroke-linecap="round" stroke-linejoin="round" stroke-width="2" d="M10.325 4.317c.426-1.756 2.924-1.756 3.35 0a1.724 1.724 0 002.573 1.066c1.543-.94 3.31.826 2.37 2.37a1.724 1.724 0 001.065 2.572c1.756.426 1.756 2.924 0 3.35a1.724 1.724 0 00-1.066 2.573c.94 1.543-.826 3.31-2.37 2.37a1.724 1.724 0 00-2.572 1.065c-.426 1.756-2.924 1.756-3.35 0a1.724 1.724 0 00-2.573-1.066c-1.543.94-3.31-.826-2.37-2.37a1.724 1.724 0 00-1.065-2.572c-1.756-.426-1.756-2.924 0-3.35a1.724 1.724 0 001.066-2.573c-.94-1.543.826-3.31 2.37-2.37.996.608 2.296.07 2.572-1.065z"/><path stroke-linecap="round" stroke-linejoin="round" stroke-width="2" d="M15 12a3 3 0 11-6 0 3 3 0 016 0z"/>"#@, r#"Settings"#@, active@ == r#"settings"#@));
    let mut r = r#"
        <aside class="fixed left-0 top-0 h-full w-64 glass border-r border-void-700/30 z-40">
            <div class="p-6 border-b border-void-700/30">
                <div class="flex items-center gap-3">
                    <div class="w-10 h-10 rounded-lg bg-gradient-to-br from-neon-green to-cyber-600 flex items-center justify-center glow-green">
                        <svg class="w-6 h-6 text-void-950" fill="currentColor" viewBox="0 0 24 24">
                            <path d="M12 2L2 7l10 5 10-5-10-5zM2 17l10 5 10-5M2 12l10 5 10-5"/>
                        </svg>
                    </div>
                    <div>
                        <h1 class="text-lg font-bold text-neon-green text-glow">CoreVPN</h1>
                        <p class="text-xs text-void-500 font-mono">v0.1.0</p>
                    </div>
                </div>
            </div>
            <nav class="py-4 space-y-1">
                "#.to_owned();
    push_str(&mut r, items_html.as_str());
    push_str(&mut r, r#"
            </nav>
            <div class="absolute bottom-0 left-0 right-0 p-4 border-t border-void-700/30">
                <div class="flex items-center gap-2 text-xs text-void-500">
                    <span class="w-2 h-2 rounded-full bg-neon-green animate-pulse"></span>
                    <span>Server Online</span>
                </div>
            </div>
        </aside>
    "#);
    r
}

/// The content of the dashboard page.
pub open spec fn dashboard_content(uptime: Seq<char>, active_clients: u32, total_connections: u64, bytes_rx: Seq<char>, bytes_tx: Seq<char>, public_host: Seq<char>, port: u16, protocol: Seq<char>, subnet: Seq<char>) -> Seq<char> {
    r#"
        "#@ + nav_text("dashboard"@) + r#"
        <main class="ml-64 p-8">
            <header class="mb-8">
                <h1 class="text-3xl font-bold text-void-50">Dashboard</h1>
                <p class="text-void-400 mt-1">Server overview and real-time statistics</p>
            </header>

            <!-- Stats Grid -->
            <div class="grid grid-cols-1 md:grid-cols-2 lg:grid-cols-4 gap-6 mb-8">
                <div class="stat-card glass rounded-xl p-6 glow-green">
                    <div class="flex items-center justify-between">
                        <div>
                            <p class="text-void-400 text-sm font-medium">Active Clients</p>
                            <p class="text-3xl font-bold text-neon-green mt-1">"#@ + decimal(active_clients as nat) + r#"</p>
                        </div>
                        <div class="w-12 h-12 rounded-lg bg-neon-green/10 flex items-center justify-center">
                            <svg class="w-6 h-6 text-neon-green" fill="none" stroke="currentColor" viewBox="0 0 24 24">
                                <path stroke-linecap="round" stroke-linejoin="round" stroke-width="2" d="M12 4.354a4 4 0 110 5.292M15 21H3v-1a6 6 0 0112 0v1zm0 0h6v-1a6 6 0 00-9-5.197M13 7a4 4 0 11-8 0 4 4 0 018 0z"/>
                            </svg>
                        </div>
                    </div>
                    <p class="text-xs text-void-500 mt-3">Connected right now</p>
                </div>

                <div class="stat-card glass rounded-xl p-6 glow-blue">
                    <div class="flex items-center justify-between">
                        <div>
                            <p class="text-void-400 text-sm font-medium">Total Connections</p>
                            <p class="text-3xl font-bold text-neon-blue mt-1">"#@ + decimal(total_connections as nat) + r#"</p>
                        </div>
                        <div class="w-12 h-12 rounded-lg bg-neon-blue/10 flex items-center justify-center">
                            <svg class="w-6 h-6 text-neon-blue" fill="none" stroke="currentColor" viewBox="0 0 24 24">
                                <path stroke-linecap="round" stroke-linejoin="round" stroke-width="2" d="M13 10V3L4 14h7v7l9-11h-7z"/>
                            </svg>
                        </div>
                    </div>
                    <p class="text-xs text-void-500 mt-3">Since server start</p>
                </div>

                <div class="stat-card glass rounded-xl p-6">
                    <div class="flex items-center justify-between">
                        <div>
                            <p class="text-void-400 text-sm font-medium">Data Received</p>
                            <p class="text-3xl font-bold text-void-100 mt-1">"#@ + bytes_rx + r#"</p>
                        </div>
                        <div class="w-12 h-12 rounded-lg bg-neon-purple/10 flex items-center justify-center">
                            <svg class="w-6 h-6 text-neon-purple" fill="none" stroke="currentColor" viewBox="0 0 24 24">
                                <path stroke-linecap="round" stroke-linejoin="round" stroke-width="2" d="M19 14l-7 7m0 0l-7-7m7 7V3"/>
                            </svg>
                        </div>
                    </div>
                    <p class="text-xs text-void-500 mt-3">Total bytes downloaded</p>
                </div>

                <div class="stat-card glass rounded-xl p-6">
                    <div class="flex items-center justify-between">
                        <div>
                            <p class="text-void-400 text-sm font-medium">Data Sent</p>
                            <p class="text-3xl font-bold text-void-100 mt-1">"#@ + bytes_tx + r#"</p>
                        </div>
                        <div class="w-12 h-12 rounded-lg bg-neon-yellow/10 flex items-center justify-center">
                            <svg class="w-6 h-6 text-neon-yellow" fill="none" stroke="currentColor" viewBox="0 0 24 24">
                                <path stroke-linecap="round" stroke-linejoin="round" stroke-width="2" d="M5 10l7-7m0 0l7 7m-7-7v18"/>
                            </svg>
                        </div>
                    </div>
                    <p class="text-xs text-void-500 mt-3">Total bytes uploaded</p>
                </div>
            </div>

            <!-- Server Info & Quick Actions -->
            <div class="grid grid-cols-1 lg:grid-cols-3 gap-6">
                <!-- Server Info -->
                <div class="lg:col-span-2 glass rounded-xl p-6">
                    <h2 class="text-lg font-semibold text-void-50 mb-4">Server Configuration</h2>
                    <div class="grid grid-cols-2 gap-4">
                        <div class="bg-void-900/50 rounded-lg p-4">
                            <p class="text-void-500 text-xs uppercase tracking-wider mb-1">Public Host</p>
                            <p class="text-void-100 font-mono">"#@ + public_host + r#"</p>
                        </div>
                        <div class="bg-void-900/50 rounded-lg p-4">
                            <p class="text-void-500 text-xs uppercase tracking-wider mb-1">Port / Protocol</p>
                            <p class="text-void-100 font-mono">"#@ + decimal(port as nat) + r#"/"#@ + upper_of(protocol) + r#"</p>
                        </div>
                        <div class="bg-void-900/50 rounded-lg p-4">
                            <p class="text-void-500 text-xs uppercase tracking-wider mb-1">VPN Subnet</p>
                            <p class="text-void-100 font-mono">"#@ + subnet + r#"</p>
                        </div>
                        <div class="bg-void-900/50 rounded-lg p-4">
                            <p class="text-void-500 text-xs uppercase tracking-wider mb-1">Uptime</p>
                            <p class="text-neon-green font-mono">"#@ + uptime + r#"</p>
                        </div>
                    </div>
                </div>

                <!-- Quick Actions -->
                <div class="glass rounded-xl p-6">
                    <h2 class="text-lg font-semibold text-void-50 mb-4">Quick Actions</h2>
                    <div class="space-y-3">
                        <a href="/admin/clients/quick-generate" class="flex items-center gap-3 p-3 rounded-lg bg-neon-green/10 text-neon-green hover:bg-neon-green/20 transition-all group">
                            <svg class="w-5 h-5 group-hover:scale-110 transition-transform" fill="none" stroke="currentColor" viewBox="0 0 24 24">
                                <path stroke-linecap="round" stroke-linejoin="round" stroke-width="2" d="M4 16v1a3 3 0 003 3h10a3 3 0 003-3v-1m-4-4l-4 4m0 0l-4-4m4 4V4"/>
                            </svg>
                            <span class="font-medium">Quick Generate .ovpn</span>
                        </a>
                        <a href="/admin/clients/new" class="flex items-center gap-3 p-3 rounded-lg bg-void-800/50 text-void-300 hover:bg-void-700/50 hover:text-void-100 transition-all group">
                            <svg class="w-5 h-5 group-hover:scale-110 transition-transform" fill="none" stroke="currentColor" viewBox="0 0 24 24">
                                <path stroke-linecap="round" stroke-linejoin="round" stroke-width="2" d="M18 9v3m0 0v3m0-3h3m-3 0h-3m-2-5a4 4 0 11-8 0 4 4 0 018 0zM3 20a6 6 0 0112 0v1H3v-1z"/>
                            </svg>
                            <span class="font-medium">Add Tracked Client</span>
                        </a>
                        <a href="/admin/sessions" class="flex items-center gap-3 p-3 rounded-lg bg-void-800/50 text-void-300 hover:bg-void-700/50 hover:text-void-100 transition-all group">
                            <svg class="w-5 h-5 group-hover:scale-110 transition-transform" fill="none" stroke="currentColor" viewBox="0 0 24 24">
                                <path stroke-linecap="round" stroke-linejoin="round" stroke-width="2" d="M8.111 16.404a5.5 5.5 0 017.778 0M12 20h.01m-7.08-7.071c3.904-3.905 10.236-3.905 14.141 0M1.394 9.393c5.857-5.857 15.355-5.857 21.213 0"/>
                            </svg>
                            <span class="font-medium">View Sessions</span>
                        </a>
                        <a href="/admin/settings" class="flex items-center gap-3 p-3 rounded-lg bg-void-800/50 text-void-300 hover:bg-void-700/50 hover:text-void-100 transition-all group">
                            <svg class="w-5 h-5 group-hover:scale-110 transition-transform" fill="none" stroke="currentColor" viewBox="0 0 24 24">
                                <path stroke-linecap="round" stroke-linejoin="round" stroke-width="2" d="M12 6V4m0 2a2 2 0 100 4m0-4a2 2 0 110 4m-6 8a2 2 0 100-4m0 4a2 2 0 110-4m0 4v2m0-6V4m6 6v10m6-2a2 2 0 100-4m0 4a2 2 0 110-4m0 4v2m0-6V4"/>
                            </svg>
                            <span class="font-medium">Server Settings</span>
                        </a>
                    </div>
                </div>
            </div>
        </main>
    "#@
}

/// A byte count as the pages show it: bytes below a KiB, else KB, MB, GB or TB with two
/// decimals (units of 1024).
pub open spec fn page_bytes_text(bytes: u64) -> Seq<char> {
    if bytes >= 0x100_0000_0000 {
        fixed_text(f64_of(bytes as nat), 0x100_0000_0000, 2) + " TB"@
    } else if bytes >= 0x4000_0000 {
        fixed_text(f64_of(bytes as nat), 0x4000_0000, 2) + " GB"@
    } else if bytes >= 0x10_0000 {
        fixed_text(f64_of(bytes as nat), 0x10_0000, 2) + " MB"@
    } else if bytes >= 0x400 {
        fixed_text(f64_of(bytes as nat), 0x400, 2) + " KB"@
    } else {
        decimal(bytes as nat) + " B"@
    }
}

/// Format bytes into human readable format.
pub fn format_bytes(bytes: u64) -> (r: String)
    ensures
        r@ == page_bytes_text(bytes),
{
    let mut r = String::new();
    if bytes >= 0x100_0000_0000 {
        write_fixed(&mut r, f64_value(bytes), 0x100_0000_0000, 2);
        push_str(&mut r, " TB");
    } else if bytes >= 0x4000_0000 {
        write_fixed(&mut r, f64_value(bytes), 0x4000_0000, 2);
        push_str(&mut r, " GB");
    } else if bytes >= 0x10_0000 {
        write_fixed(&mut r, f64_value(bytes), 0x10_0000, 2);
        push_str(&mut r, " MB");
    } else if bytes >= 0x400 {
        write_fixed(&mut r, f64_value(bytes), 0x400, 2);
        push_str(&mut r, " KB");
    } else {
        write_decimal(&mut r, bytes);
        push_str(&mut r, " B");
    }
    assert(r@ =~= page_bytes_text(bytes));
    r
}

/// Dashboard page.
pub fn dashboard(
    uptime: &str,
    active_clients: u32,
    total_connections: u64,
    bytes_rx: u64,
    bytes_tx: u64,
    public_host: &str,
    port: u16,
    protocol: &str,
    subnet: &str,
) -> (page: String)
    ensures
        page@ == base_text("Dashboard"@, dashboard_content(uptime@, active_clients, total_connections, page_bytes_text(bytes_rx), page_bytes_text(bytes_tx), public_host@, port, protocol@, subnet@)),
{
    let nav_html = nav("dashboard");
    let rx_text = format_bytes(bytes_rx);
    let tx_text = format_bytes(bytes_tx);
    let protocol_upper = to_uppercase(protocol);
    let mut r = r#"
        "#.to_owned();
    push_str(&mut r, nav_html.as_str());
    push_str(&mut r, r#"
        <main class="ml-64 p-8">
            <header class="mb-8">
                <h1 class="text-3xl font-bold text-void-50">Dashboard</h1>
                <p class="text-void-400 mt-1">Server overview and real-time statistics</p>
            </header>

            <!-- Stats Grid -->
            <div class="grid grid-cols-1 md:grid-cols-2 lg:grid-cols-4 gap-6 mb-8">
                <div class="stat-card glass rounded-xl p-6 glow-green">
                    <div class="flex items-center justify-between">
                        <div>
                            <p class="text-void-400 text-sm font-medium">Active Clients</p>
                            <p class="text-3xl font-bold text-neon-green mt-1">"#);
    write_decimal(&mut r, active_clients as u64);
    push_str(&mut r, r#"</p>
                        </div>
                        <div class="w-12 h-12 rounded-lg bg-neon-green/10 flex items-center justify-center">
                            <svg class="w-6 h-6 text-neon-green" fill="none" stroke="currentColor" viewBox="0 0 24 24">
                                <path stroke-linecap="round" stroke-linejoin="round" stroke-width="2" d="M12 4.354a4 4 0 110 5.292M15 21H3v-1a6 6 0 0112 0v1zm0 0h6v-1a6 6 0 00-9-5.197M13 7a4 4 0 11-8 0 4 4 0 018 0z"/>
                            </svg>
                        </div>
                    </div>
                    <p class="text-xs text-void-500 mt-3">Connected right now</p>
                </div>

                <div class="stat-card glass rounded-xl p-6 glow-blue">
                    <div class="flex items-center justify-between">
                        <div>
                            <p class="text-void-400 text-sm font-medium">Total Connections</p>
                            <p class="text-3xl font-bold text-neon-blue mt-1">"#);
    write_decimal(&mut r, total_connections as u64);
    push_str(&mut r, r#"</p>
                        </div>
                        <div class="w-12 h-12 rounded-lg bg-neon-blue/10 flex items-center justify-center">
                            <svg class="w-6 h-6 text-neon-blue" fill="none" stroke="currentColor" viewBox="0 0 24 24">
                                <path stroke-linecap="round" stroke-linejoin="round" stroke-width="2" d="M13 10V3L4 14h7v7l9-11h-7z"/>
                            </svg>
                        </div>
                    </div>
                    <p class="text-xs text-void-500 mt-3">Since server start</p>
                </div>

                <div class="stat-card glass rounded-xl p-6">
                    <div class="flex items-center justify-between">
                        <div>
                            <p class="text-void-400 text-sm font-medium">Data Received</p>
                            <p class="text-3xl font-bold text-void-100 mt-1">"#);
    push_str(&mut r, rx_text.as_str());
    push_str(&mut r, r#"</p>
                        </div>
                        <div class="w-12 h-12 rounded-lg bg-neon-purple/10 flex items-center justify-center">
                            <svg class="w-6 h-6 text-neon-purple" fill="none" stroke="currentColor" viewBox="0 0 24 24">
                                <path stroke-linecap="round" stroke-linejoin="round" stroke-width="2" d="M19 14l-7 7m0 0l-7-7m7 7V3"/>
                            </svg>
                        </div>
                    </div>
                    <p class="text-xs text-void-500 mt-3">Total bytes downloaded</p>
                </div>

                <div class="stat-card glass rounded-xl p-6">
                    <div class="flex items-center justify-between">
                        <div>
                            <p class="text-void-400 text-sm font-medium">Data Sent</p>
                            <p class="text-3xl font-bold text-void-100 mt-1">"#);
    push_str(&mut r, tx_text.as_str());
    push_str(&mut r, r#"</p>
                        </div>
                        <div class="w-12 h-12 rounded-lg bg-neon-yellow/10 flex items-center justify-center">
                            <svg class="w-6 h-6 text-neon-yellow" fill="none" stroke="currentColor" viewBox="0 0 24 24">
                                <path stroke-linecap="round" stroke-linejoin="round" stroke-width="2" d="M5 10l7-7m0 0l7 7m-7-7v18"/>
                            </svg>
                        </div>
                    </div>
                    <p class="text-xs text-void-500 mt-3">Total bytes uploaded</p>
                </div>
            </div>

            <!-- Server Info & Quick Actions -->
            <div class="grid grid-cols-1 lg:grid-cols-3 gap-6">
                <!-- Server Info -->
                <div class="lg:col-span-2 glass rounded-xl p-6">
                    <h2 class="text-lg font-semibold text-void-50 mb-4">Server Configuration</h2>
                    <div class="grid grid-cols-2 gap-4">
                        <div class="bg-void-900/50 rounded-lg p-4">
                            <p class="text-void-500 text-xs uppercase tracking-wider mb-1">Public Host</p>
                            <p class="text-void-100 font-mono">"#);
    push_str(&mut r, public_host);
    push_str(&mut r, r#"</p>
                        </div>
                        <div class="bg-void-900/50 rounded-lg p-4">
                            <p class="text-void-500 text-xs uppercase tracking-wider mb-1">Port / Protocol</p>
                            <p class="text-void-100 font-mono">"#);
    write_decimal(&mut r, port as u64);
    push_str(&mut r, r#"/"#);
    push_str(&mut r, protocol_upper.as_str());
    push_str(&mut r, r#"</p>
                        </div>
                        <div class="bg-void-900/50 rounded-lg p-4">
                            <p class="text-void-500 text-xs uppercase tracking-wider mb-1">VPN Subnet</p>
                            <p class="text-void-100 font-mono">"#);
    push_str(&mut r, subnet);
    push_str(&mut r, r#"</p>
                        </div>
                        <div class="bg-void-900/50 rounded-lg p-4">
                            <p class="text-void-500 text-xs uppercase tracking-wider mb-1">Uptime</p>
                            <p class="text-neon-green font-mono">"#);
    push_str(&mut r, uptime);
    push_str(&mut r, r#"</p>
                        </div>
                    </div>
                </div>

                <!-- Quick Actions -->
                <div class="glass rounded-xl p-6">
                    <h2 class="text-lg font-semibold text-void-50 mb-4">Quick Actions</h2>
                    <div class="space-y-3">
                        <a href="/admin/clients/quick-generate" class="flex items-center gap-3 p-3 rounded-lg bg-neon-green/10 text-neon-green hover:bg-neon-green/20 transition-all group">
                            <svg class="w-5 h-5 group-hover:scale-110 transition-transform" fill="none" stroke="currentColor" viewBox="0 0 24 24">
                                <path stroke-linecap="round" stroke-linejoin="round" stroke-width="2" d="M4 16v1a3 3 0 003 3h10a3 3 0 003-3v-1m-4-4l-4 4m0 0l-4-4m4 4V4"/>
                            </svg>
                            <span class="font-medium">Quick Generate .ovpn</span>
                        </a>
                        <a href="/admin/clients/new" class="flex items-center gap-3 p-3 rounded-lg bg-void-800/50 text-void-300 hover:bg-void-700/50 hover:text-void-100 transition-all group">
                            <svg class="w-5 h-5 group-hover:scale-110 transition-transform" fill="none" stroke="currentColor" viewBox="0 0 24 24">
                                <path stroke-linecap="round" stroke-linejoin="round" stroke-width="2" d="M18 9v3m0 0v3m0-3h3m-3 0h-3m-2-5a4 4 0 11-8 0 4 4 0 018 0zM3 20a6 6 0 0112 0v1H3v-1z"/>
                            </svg>
                            <span class="font-medium">Add Tracked Client</span>
                        </a>
                        <a href="/admin/sessions" class="flex items-center gap-3 p-3 rounded-lg bg-void-800/50 text-void-300 hover:bg-void-700/50 hover:text-void-100 transition-all group">
                            <svg class="w-5 h-5 group-hover:scale-110 transition-transform" fill="none" stroke="currentColor" viewBox="0 0 24 24">
                                <path stroke-linecap="round" stroke-linejoin="round" stroke-width="2" d="M8.111 16.404a5.5 5.5 0 017.778 0M12 20h.01m-7.08-7.071c3.904-3.905 10.236-3.905 14.141 0M1.394 9.393c5.857-5.857 15.355-5.857 21.213 0"/>
                            </svg>
                            <span class="font-medium">View Sessions</span>
                        </a>
                        <a href="/admin/settings" class="flex items-center gap-3 p-3 rounded-lg bg-void-800/50 text-void-300 hover:bg-void-700/50 hover:text-void-100 transition-all group">
                            <svg class="w-5 h-5 group-hover:scale-110 transition-transform" fill="none" stroke="currentColor" viewBox="0 0 24 24">
                                <path stroke-linecap="round" stroke-linejoin="round" stroke-width="2" d="M12 6V4m0 2a2 2 0 100 4m0-4a2 2 0 110 4m-6 8a2 2 0 100-4m0 4a2 2 0 110-4m0 4v2m0-6V4m6 6v10m6-2a2 2 0 100-4m0 4a2 2 0 110-4m0 4v2m0-6V4"/>
                            </svg>
                            <span class="font-medium">Server Settings</span>
                        </a>
                    </div>
                </div>
            </div>
        </main>
    "#);
    base("Dashboard", r.as_str())
}

/// Client info for templates.
#[derive(Clone, Debug)]
pub struct ClientInfo {
    pub id: String,
    pub name: String,
    pub email: String,
    pub connected: bool,
    pub vpn_ip: Option<String>,
    pub last_seen: Option<String>,
}

/// Session info for templates.
#[derive(Clone, Debug)]
pub struct SessionInfo {
    pub id: String,
    pub client_name: String,
    pub vpn_ip: String,
    pub real_ip: String,
    pub connected_at: String,
    pub data_usage: String,
}

/// The text of an optional string, or a default.
pub open spec fn opt_or(o: Option<String>, d: Seq<char>) -> Seq<char> {
    match o {
        Some(s) => s@,
        None => d,
    }
}

fn opt_or_str<'a>(o: &'a Option<String>, d: &'a str) -> (r: &'a str)
    ensures
        r@ == opt_or(*o, d@),
{
    match o {
        Some(s) => s.as_str(),
        None => d,
    }
}

/// The table row of a client.
pub open spec fn client_row_text(c: ClientInfo, csrf_token: Seq<char>) -> Seq<char> {
    r#"
                <tr class="border-b border-void-800/50 hover:bg-void-800/30 transition-colors">
                    <td class="px-6 py-4">
                        <div class="flex items-center gap-3">
                            <div class="w-10 h-10 rounded-full bg-gradient-to-br from-neon-blue to-neon-purple flex items-center justify-center text-void-950 font-bold">
                                "#@ + html_escape_text(char_upper_text(first_or_question(c.name@))) + r#"
                            </div>
                            <div>
                                <p class="font-medium text-void-100">"#@ + html_escape_text(c.name@) + r#"</p>
                                <p class="text-sm text-void-500">"#@ + html_escape_text(c.email@) + r#"</p>
                            </div>
                        </div>
                    </td>
                    <td class="px-6 py-4">
                        <span class="px-2 py-1 rounded-full text-xs font-medium "#@ + (if c.connected { r#"bg-neon-green/10 text-neon-green"#@ } else { r#"bg-void-700/50 text-void-400"#@ }) + r#"">"#@ + (if c.connected { r#"Online"#@ } else { r#"Offline"#@ }) + r#"</span>
                    </td>
                    <td class="px-6 py-4 text-void-400 font-mono text-sm">"#@ + html_escape_text(opt_or(c.vpn_ip, "-"@)) + r#"</td>
                    <td class="px-6 py-4 text-void-400 text-sm">"#@ + html_escape_text(opt_or(c.last_seen, "Never"@)) + r#"</td>
                    <td class="px-6 py-4">
                        <div class="flex items-center gap-2">
                            <a href="/admin/clients/"#@ + html_escape_text(c.id@) + r#"/download" class="p-2 rounded-lg hover:bg-void-700/50 text-void-400 hover:text-neon-green transition-colors" title="Download Config">
                                <svg class="w-4 h-4" fill="none" stroke="currentColor" viewBox="0 0 24 24">
                                    <path stroke-linecap="round" stroke-linejoin="round" stroke-width="2" d="M4 16v1a3 3 0 003 3h10a3 3 0 003-3v-1m-4-4l-4 4m0 0l-4-4m4 4V4"/>
                                </svg>
                            </a>
                            <a href="/admin/clients/"#@ + html_escape_text(c.id@) + r#"/edit" class="p-2 rounded-lg hover:bg-void-700/50 text-void-400 hover:text-neon-blue transition-colors" title="Edit">
                                <svg class="w-4 h-4" fill="none" stroke="currentColor" viewBox="0 0 24 24">
                                    <path stroke-linecap="round" stroke-linejoin="round" stroke-width="2" d="M11 5H6a2 2 0 00-2 2v11a2 2 0 002 2h11a2 2 0 002-2v-5m-1.414-9.414a2 2 0 112.828 2.828L11.828 15H9v-2.828l8.586-8.586z"/>
                                </svg>
                            </a>
                            <form action="/admin/clients/"#@ + html_escape_text(c.id@) + r#"/revoke" method="POST" class="inline" onsubmit="return confirm('Revoke this client?')">
                                <input type="hidden" name="csrf_token" value=""#@ + csrf_token + r#"">
                                <button type="submit" class="p-2 rounded-lg hover:bg-neon-pink/10 text-void-400 hover:text-neon-pink transition-colors" title="Revoke">
                                    <svg class="w-4 h-4" fill="none" stroke="currentColor" viewBox="0 0 24 24">
                                        <path stroke-linecap="round" stroke-linejoin="round" stroke-width="2" d="M18.364 18.364A9 9 0 005.636 5.636m12.728 12.728A9 9 0 015.636 5.636m12.728 12.728L5.636 5.636"/>
                                    </svg>
                                </button>
                            </form>
                        </div>
                    </td>
                </tr>
            "#@
}

/// The rows of the client table: a placeholder row when there are no clients.
pub open spec fn client_rows_text(cs: Seq<ClientInfo>, csrf_token: Seq<char>) -> Seq<char> {
    if cs.len() == 0 {
        r#"
            <tr>
                <td colspan="5" class="px-6 py-12 text-center text-void-500">
                    <svg class="w-12 h-12 mx-auto mb-4 text-void-600" fill="none" stroke="currentColor" viewBox="0 0 24 24">
                        <path stroke-linecap="round" stroke-linejoin="round" stroke-width="2" d="M12 4.354a4 4 0 110 5.292M15 21H3v-1a6 6 0 0112 0v1zm0 0h6v-1a6 6 0 00-9-5.197M13 7a4 4 0 11-8 0 4 4 0 018 0z"/>
                    </svg>
                    <p class="font-medium">No clients configured</p>
                    <p class="text-sm mt-1">Add your first client to get started</p>
                </td>
            </tr>
        "#@
    } else {
        client_rows_concat(cs, csrf_token)
    }
}

/// The rows of the given clients, in order.
pub open spec fn client_rows_concat(cs: Seq<ClientInfo>, csrf_token: Seq<char>) -> Seq<char>
    decreases cs.len(),
{
    if cs.len() == 0 {
        seq![]
    } else {
        client_rows_concat(cs.drop_last(), csrf_token) + client_row_text(cs.last(), csrf_token)
    }
}

fn client_row(c: &ClientInfo, csrf_token: &str) -> (r: String)
    ensures
        r@ == client_row_text(*c, csrf_token@),
{
    let up = char_to_uppercase(first_char_or_question(c.name.as_str()));
    let initial = html_escape(up.as_str());
    let name = html_escape(c.name.as_str());
    let email = html_escape(c.email.as_str());
    let status_class = if c.connected { r#"bg-neon-green/10 text-neon-green"# } else { r#"bg-void-700/50 text-void-400"# };
    let status_text = if c.connected { r#"Online"# } else { r#"Offline"# };
    let vpn_ip = html_escape(opt_or_str(&c.vpn_ip, "-"));
    let last_seen = html_escape(opt_or_str(&c.last_seen, "Never"));
    let id = html_escape(c.id.as_str());
    let mut r = r#"
                <tr class="border-b border-void-800/50 hover:bg-void-800/30 transition-colors">
                    <td class="px-6 py-4">
                        <div class="flex items-center gap-3">
                            <div class="w-10 h-10 rounded-full bg-gradient-to-br from-neon-blue to-neon-purple flex items-center justify-center text-void-950 font-bold">
                                "#.to_owned();
    push_str(&mut r, initial.as_str());
    push_str(&mut r, r#"
                            </div>
                            <div>
                                <p class="font-medium text-void-100">"#);
    push_str(&mut r, name.as_str());
    push_str(&mut r, r#"</p>
                                <p class="text-sm text-void-500">"#);
    push_str(&mut r, email.as_str());
    push_str(&mut r, r#"</p>
                            </div>
                        </div>
                    </td>
                    <td class="px-6 py-4">
                        <span class="px-2 py-1 rounded-full text-xs font-medium "#);
    push_str(&mut r, status_class);
    push_str(&mut r, r#"">"#);
    push_str(&mut r, status_text);
    push_str(&mut r, r#"</span>
                    </td>
                    <td class="px-6 py-4 text-void-400 font-mono text-sm">"#);
    push_str(&mut r, vpn_ip.as_str());
    push_str(&mut r, r#"</td>
                    <td class="px-6 py-4 text-void-400 text-sm">"#);
    push_str(&mut r, last_seen.as_str());
    push_str(&mut r, r#"</td>
                    <td class="px-6 py-4">
                        <div class="flex items-center gap-2">
                            <a href="/admin/clients/"#);
    push_str(&mut r, id.as_str());
    push_str(&mut r, r#"/download" class="p-2 rounded-lg hover:bg-void-700/50 text-void-400 hover:text-neon-green transition-colors" title="Download Config">
                                <svg class="w-4 h-4" fill="none" stroke="currentColor" viewBox="0 0 24 24">
                                    <path stroke-linecap="round" stroke-linejoin="round" stroke-width="2" d="M4 16v1a3 3 0 003 3h10a3 3 0 003-3v-1m-4-4l-4 4m0 0l-4-4m4 4V4"/>
                                </svg>
                            </a>
                            <a href="/admin/clients/"#);
    push_str(&mut r, id.as_str());
    push_str(&mut r, r#"/edit" class="p-2 rounded-lg hover:bg-void-700/50 text-void-400 hover:text-neon-blue transition-colors" title="Edit">
                                <svg class="w-4 h-4" fill="none" stroke="currentColor" viewBox="0 0 24 24">
                                    <path stroke-linecap="round" stroke-linejoin="round" stroke-width="2" d="M11 5H6a2 2 0 00-2 2v11a2 2 0 002 2h11a2 2 0 002-2v-5m-1.414-9.414a2 2 0 112.828 2.828L11.828 15H9v-2.828l8.586-8.586z"/>
                                </svg>
                            </a>
                            <form action="/admin/clients/"#);
    push_str(&mut r, id.as_str());
    push_str(&mut r, r#"/revoke" method="POST" class="inline" onsubmit="return confirm('Revoke this client?')">
                                <input type="hidden" name="csrf_token" value=""#);
    push_str(&mut r, csrf_token);
    push_str(&mut r, r#"">
                                <button type="submit" class="p-2 rounded-lg hover:bg-neon-pink/10 text-void-400 hover:text-neon-pink transition-colors" title="Revoke">
                                    <svg class="w-4 h-4" fill="none" stroke="currentColor" viewBox="0 0 24 24">
                                        <path stroke-linecap="round" stroke-linejoin="round" stroke-width="2" d="M18.364 18.364A9 9 0 005.636 5.636m12.728 12.728A9 9 0 015.636 5.636m12.728 12.728L5.636 5.636"/>
                                    </svg>
                                </button>
                            </form>
                        </div>
                    </td>
                </tr>
            "#);
    r
}

fn client_rows(clients: &[ClientInfo], csrf_token: &str) -> (r: String)
    ensures
        r@ == client_rows_text(clients@, csrf_token@),
{
    if clients.len() == 0 {
        return r#"
            <tr>
                <td colspan="5" class="px-6 py-12 text-center text-void-500">
                    <svg class="w-12 h-12 mx-auto mb-4 text-void-600" fill="none" stroke="currentColor" viewBox="0 0 24 24">
                        <path stroke-linecap="round" stroke-linejoin="round" stroke-width="2" d="M12 4.354a4 4 0 110 5.292M15 21H3v-1a6 6 0 0112 0v1zm0 0h6v-1a6 6 0 00-9-5.197M13 7a4 4 0 11-8 0 4 4 0 018 0z"/>
                    </svg>
                    <p class="font-medium">No clients configured</p>
                    <p class="text-sm mt-1">Add your first client to get started</p>
                </td>
            </tr>
        "#.to_owned();
    }
    let mut rows = String::new();
    let mut i: usize = 0;
    while i < clients.len()
        invariant
            i <= clients@.len(),
            rows@ == client_rows_concat(clients@.subrange(0, i as int), csrf_token@),
        decreases clients@.len() - i,
    {
        let row = client_row(&clients[i], csrf_token);
        push_str(&mut rows, row.as_str());
        proof {
            let next = clients@.subrange(0, i + 1);
            assert(next.drop_last() =~= clients@.subrange(0, i as int));
            assert(next.last() == clients@[i as int]);
        }
        i = i + 1;
    }
    assert(clients@.subrange(0, clients@.len() as int) =~= clients@);
    rows
}

/// The content of the clients list page.
pub open spec fn clients_list_content(rows: Seq<char>) -> Seq<char> {
    r#"
        "#@ + nav_text("clients"@) + r#"
        <main class="ml-64 p-8">
            <header class="mb-8 flex items-center justify-between">
                <div>
                    <h1 class="text-3xl font-bold text-void-50">Clients</h1>
                    <p class="text-void-400 mt-1">Manage VPN client configurations</p>
                </div>
                <div class="flex items-center gap-3">
                    <a href="/admin/clients/quick-generate" class="flex items-center gap-2 px-4 py-2 bg-neon-blue/10 text-neon-blue rounded-lg font-medium hover:bg-neon-blue/20 transition-colors">
                        <svg class="w-5 h-5" fill="none" stroke="currentColor" viewBox="0 0 24 24">
                            <path stroke-linecap="round" stroke-linejoin="round" stroke-width="2" d="M4 16v1a3 3 0 003 3h10a3 3 0 003-3v-1m-4-4l-4 4m0 0l-4-4m4 4V4"/>
                        </svg>
                        Quick .ovpn
                    </a>
                    <a href="/admin/clients/new" class="flex items-center gap-2 px-4 py-2 bg-neon-green text-void-950 rounded-lg font-medium hover:bg-neon-green/90 transition-colors glow-green">
                        <svg class="w-5 h-5" fill="none" stroke="currentColor" viewBox="0 0 24 24">
                            <path stroke-linecap="round" stroke-linejoin="round" stroke-width="2" d="M12 6v6m0 0v6m0-6h6m-6 0H6"/>
                        </svg>
                        Add Client
                    </a>
                </div>
            </header>

            <div class="glass rounded-xl overflow-hidden">
                <table class="w-full">
                    <thead class="bg-void-900/50 border-b border-void-700/30">
                        <tr>
                            <th class="px-6 py-4 text-left text-xs font-semibold text-void-400 uppercase tracking-wider">Client</th>
                            <th class="px-6 py-4 text-left text-xs font-semibold text-void-400 uppercase tracking-wider">Status</th>
                            <th class="px-6 py-4 text-left text-xs font-semibold text-void-400 uppercase tracking-wider">VPN IP</th>
                            <th class="px-6 py-4 text-left text-xs font-semibold text-void-400 uppercase tracking-wider">Last Seen</th>
                            <th class="px-6 py-4 text-left text-xs font-semibold text-void-400 uppercase tracking-wider">Actions</th>
                        </tr>
                    </thead>
                    <tbody>
                        "#@ + rows + r#"
                    </tbody>
                </table>
            </div>
        </main>
    "#@
}

/// Clients list page.
pub fn clients_list(clients: &[ClientInfo], csrf_token: &str) -> (page: String)
    ensures
        page@ == base_text("Clients"@, clients_list_content(client_rows_text(clients@, csrf_token@))),
{
    let rows = client_rows(clients, csrf_token);
    let nav_html = nav("clients");
    let mut r = r#"
        "#.to_owned();
    push_str(&mut r, nav_html.as_str());
    push_str(&mut r, r#"
        <main class="ml-64 p-8">
            <header class="mb-8 flex items-center justify-between">
                <div>
                    <h1 class="text-3xl font-bold text-void-50">Clients</h1>
                    <p class="text-void-400 mt-1">Manage VPN client configurations</p>
                </div>
                <div class="flex items-center gap-3">
                    <a href="/admin/clients/quick-generate" class="flex items-center gap-2 px-4 py-2 bg-neon-blue/10 text-neon-blue rounded-lg font-medium hover:bg-neon-blue/20 transition-colors">
                        <svg class="w-5 h-5" fill="none" stroke="currentColor" viewBox="0 0 24 24">
                            <path stroke-linecap="round" stroke-linejoin="round" stroke-width="2" d="M4 16v1a3 3 0 003 3h10a3 3 0 003-3v-1m-4-4l-4 4m0 0l-4-4m4 4V4"/>
                        </svg>
                        Quick .ovpn
                    </a>
                    <a href="/admin/clients/new" class="flex items-center gap-2 px-4 py-2 bg-neon-green text-void-950 rounded-lg font-medium hover:bg-neon-green/90 transition-colors glow-green">
                        <svg class="w-5 h-5" fill="none" stroke="currentColor" viewBox="0 0 24 24">
                            <path stroke-linecap="round" stroke-linejoin="round" stroke-width="2" d="M12 6v6m0 0v6m0-6h6m-6 0H6"/>
                        </svg>
                        Add Client
                    </a>
                </div>
            </header>

            <div class="glass rounded-xl overflow-hidden">
                <table class="w-full">
                    <thead class="bg-void-900/50 border-b border-void-700/30">
                        <tr>
                            <th class="px-6 py-4 text-left text-xs font-semibold text-void-400 uppercase tracking-wider">Client</th>
                            <th class="px-6 py-4 text-left text-xs font-semibold text-void-400 uppercase tracking-wider">Status</th>
                            <th class="px-6 py-4 text-left text-xs font-semibold text-void-400 uppercase tracking-wider">VPN IP</th>
                            <th class="px-6 py-4 text-left text-xs font-semibold text-void-400 uppercase tracking-wider">Last Seen</th>
                            <th class="px-6 py-4 text-left text-xs font-semibold text-void-400 uppercase tracking-wider">Actions</th>
                        </tr>
                    </thead>
                    <tbody>
                        "#);
    push_str(&mut r, rows.as_str());
    push_str(&mut r, r#"
                    </tbody>
                </table>
            </div>
        </main>
    "#);
    base("Clients", r.as_str())
}

/// The content of the new client page.
pub open spec fn new_client_content(csrf_token: Seq<char>) -> Seq<char> {
    r#"
        "#@ + nav_text("clients"@) + r#"
        <main class="ml-64 p-8">
            <header class="mb-8">
                <a href="/admin/clients" class="inline-flex items-center gap-2 text-void-400 hover:text-void-100 transition-colors mb-4">
                    <svg class="w-4 h-4" fill="none" stroke="currentColor" viewBox="0 0 24 24">
                        <path stroke-linecap="round" stroke-linejoin="round" stroke-width="2" d="M15 19l-7-7 7-7"/>
                    </svg>
                    Back to Clients
                </a>
                <h1 class="text-3xl font-bold text-void-50">Add New Client</h1>
                <p class="text-void-400 mt-1">Generate a new VPN client configuration</p>
            </header>

            <div class="max-w-2xl">
                <form action="/admin/clients" method="POST" class="glass rounded-xl p-8 space-y-6">
                    <input type="hidden" name="csrf_token" value=""#@ + csrf_token + r#"">
                    <div>
                        <label for="name" class="block text-sm font-medium text-void-300 mb-2">Client Name</label>
                        <input type="text" id="name" name="name" required
                            class="w-full px-4 py-3 bg-void-900/50 border border-void-700/50 rounded-lg text-void-100 placeholder-void-500 focus:outline-none focus:border-neon-green focus:ring-1 focus:ring-neon-green transition-colors"
                            placeholder="e.g., johns-laptop">
                        <p class="text-xs text-void-500 mt-1">Used in the certificate common name</p>
                    </div>

                    <div>
                        <label for="email" class="block text-sm font-medium text-void-300 mb-2">Email Address</label>
                        <input type="email" id="email" name="email" required
                            class="w-full px-4 py-3 bg-void-900/50 border border-void-700/50 rounded-lg text-void-100 placeholder-void-500 focus:outline-none focus:border-neon-green focus:ring-1 focus:ring-neon-green transition-colors"
                            placeholder="user@example.com">
                        <p class="text-xs text-void-500 mt-1">For identification and OAuth2 linking</p>
                    </div>

                    <div>
                        <label class="block text-sm font-medium text-void-300 mb-2">Expiration</label>
                        <select name="expires" class="w-full px-4 py-3 bg-void-900/50 border border-void-700/50 rounded-lg text-void-100 focus:outline-none focus:border-neon-green focus:ring-1 focus:ring-neon-green transition-colors">
                            <option value="365">1 Year</option>
                            <option value="180">6 Months</option>
                            <option value="90">3 Months</option>
                            <option value="30">30 Days</option>
                            <option value="7">7 Days</option>
                        </select>
                    </div>

                    <div class="pt-4 flex items-center gap-4">
                        <button type="submit" class="flex-1 px-6 py-3 bg-neon-green text-void-950 rounded-lg font-semibold hover:bg-neon-green/90 transition-colors glow-green">
                            Create Client
                        </button>
                        <a href="/admin/clients" class="px-6 py-3 bg-void-800/50 text-void-300 rounded-lg font-medium hover:bg-void-700/50 hover:text-void-100 transition-colors">
                            Cancel
                        </a>
                    </div>
                </form>
            </div>
        </main>
    "#@
}

/// New client form.
pub fn new_client(csrf_token: &str) -> (page: String)
    ensures
        page@ == base_text("Add Client"@, new_client_content(csrf_token@)),
{
    let nav_html = nav("clients");
    let mut r = r#"
        "#.to_owned();
    push_str(&mut r, nav_html.as_str());
    push_str(&mut r, r#"
        <main class="ml-64 p-8">
            <header class="mb-8">
                <a href="/admin/clients" class="inline-flex items-center gap-2 text-void-400 hover:text-void-100 transition-colors mb-4">
                    <svg class="w-4 h-4" fill="none" stroke="currentColor" viewBox="0 0 24 24">
                        <path stroke-linecap="round" stroke-linejoin="round" stroke-width="2" d="M15 19l-7-7 7-7"/>
                    </svg>
                    Back to Clients
                </a>
                <h1 class="text-3xl font-bold text-void-50">Add New Client</h1>
                <p class="text-void-400 mt-1">Generate a new VPN client configuration</p>
            </header>

            <div class="max-w-2xl">
                <form action="/admin/clients" method="POST" class="glass rounded-xl p-8 space-y-6">
                    <input type="hidden" name="csrf_token" value=""#);
    push_str(&mut r, csrf_token);
    push_str(&mut r, r#"">
                    <div>
                        <label for="name" class="block text-sm font-medium text-void-300 mb-2">Client Name</label>
                        <input type="text" id="name" name="name" required
                            class="w-full px-4 py-3 bg-void-900/50 border border-void-700/50 rounded-lg text-void-100 placeholder-void-500 focus:outline-none focus:border-neon-green focus:ring-1 focus:ring-neon-green transition-colors"
                            placeholder="e.g., johns-laptop">
                        <p class="text-xs text-void-500 mt-1">Used in the certificate common name</p>
                    </div>

                    <div>
                        <label for="email" class="block text-sm font-medium text-void-300 mb-2">Email Address</label>
                        <input type="email" id="email" name="email" required
                            class="w-full px-4 py-3 bg-void-900/50 border border-void-700/50 rounded-lg text-void-100 placeholder-void-500 focus:outline-none focus:border-neon-green focus:ring-1 focus:ring-neon-green transition-colors"
                            placeholder="user@example.com">
                        <p class="text-xs text-void-500 mt-1">For identification and OAuth2 linking</p>
                    </div>

                    <div>
                        <label class="block text-sm font-medium text-void-300 mb-2">Expiration</label>
                        <select name="expires" class="w-full px-4 py-3 bg-void-900/50 border border-void-700/50 rounded-lg text-void-100 focus:outline-none focus:border-neon-green focus:ring-1 focus:ring-neon-green transition-colors">
                            <option value="365">1 Year</option>
                            <option value="180">6 Months</option>
                            <option value="90">3 Months</option>
                            <option value="30">30 Days</option>
                            <option value="7">7 Days</option>
                        </select>
                    </div>

                    <div class="pt-4 flex items-center gap-4">
                        <button type="submit" class="flex-1 px-6 py-3 bg-neon-green text-void-950 rounded-lg font-semibold hover:bg-neon-green/90 transition-colors glow-green">
                            Create Client
                        </button>
                        <a href="/admin/clients" class="px-6 py-3 bg-void-800/50 text-void-300 rounded-lg font-medium hover:bg-void-700/50 hover:text-void-100 transition-colors">
                            Cancel
                        </a>
                    </div>
                </form>
            </div>
        </main>
    "#);
    base("Add Client", r.as_str())
}

/// The table row of a session.
pub open spec fn session_row_text(s: SessionInfo, csrf_token: Seq<char>) -> Seq<char> {
    r#"
                <tr class="border-b border-void-800/50 hover:bg-void-800/30 transition-colors">
                    <td class="px-6 py-4">
                        <div class="flex items-center gap-3">
                            <span class="w-2 h-2 rounded-full bg-neon-green animate-pulse"></span>
                            <span class="font-medium text-void-100">"#@ + html_escape_text(s.client_name@) + r#"</span>
                        </div>
                    </td>
                    <td class="px-6 py-4 text-void-400 font-mono text-sm">"#@ + html_escape_text(s.vpn_ip@) + r#"</td>
                    <td class="px-6 py-4 text-void-400 font-mono text-sm">"#@ + html_escape_text(s.real_ip@) + r#"</td>
                    <td class="px-6 py-4 text-void-400 text-sm">"#@ + html_escape_text(s.connected_at@) + r#"</td>
                    <td class="px-6 py-4 text-void-400 text-sm">"#@ + html_escape_text(s.data_usage@) + r#"</td>
                    <td class="px-6 py-4">
                        <form action="/admin/sessions/"#@ + html_escape_text(s.id@) + r#"/disconnect" method="POST" class="inline" onsubmit="return confirm('Disconnect this session?')">
                            <input type="hidden" name="csrf_token" value=""#@ + csrf_token + r#"">
                            <button type="submit" class="px-3 py-1 rounded-lg bg-neon-pink/10 text-neon-pink text-sm font-medium hover:bg-neon-pink/20 transition-colors">
                                Disconnect
                            </button>
                        </form>
                    </td>
                </tr>
            "#@
}

/// The rows of the session table: a placeholder row when there are no sessions.
pub open spec fn session_rows_text(ss: Seq<SessionInfo>, csrf_token: Seq<char>) -> Seq<char> {
    if ss.len() == 0 {
        r#"
            <tr>
                <td colspan="6" class="px-6 py-12 text-center text-void-500">
                    <svg class="w-12 h-12 mx-auto mb-4 text-void-600" fill="none" stroke="currentColor" viewBox="0 0 24 24">
                        <path stroke-linecap="round" stroke-linejoin="round" stroke-width="2" d="M8.111 16.404a5.5 5.5 0 017.778 0M12 20h.01m-7.08-7.071c3.904-3.905 10.236-3.905 14.141 0M1.394 9.393c5.857-5.857 15.355-5.857 21.213 0"/>
                    </svg>
                    <p class="font-medium">No active sessions</p>
                    <p class="text-sm mt-1">Sessions will appear when clients connect</p>
                </td>
            </tr>
        "#@
    } else {
        session_rows_concat(ss, csrf_token)
    }
}

/// The rows of the given sessions, in order.
pub open spec fn session_rows_concat(ss: Seq<SessionInfo>, csrf_token: Seq<char>) -> Seq<char>
    decreases ss.len(),
{
    if ss.len() == 0 {
        seq![]
    } else {
        session_rows_concat(ss.drop_last(), csrf_token) + session_row_text(ss.last(), csrf_token)
    }
}

fn session_row(s: &SessionInfo, csrf_token: &str) -> (r: String)
    ensures
        r@ == session_row_text(*s, csrf_token@),
{
    let client = html_escape(s.client_name.as_str());
    let vpn_ip = html_escape(s.vpn_ip.as_str());
    let real_ip = html_escape(s.real_ip.as_str());
    let connected_at = html_escape(s.connected_at.as_str());
    let data_usage = html_escape(s.data_usage.as_str());
    let id = html_escape(s.id.as_str());
    let mut r = r#"
                <tr class="border-b border-void-800/50 hover:bg-void-800/30 transition-colors">
                    <td class="px-6 py-4">
                        <div class="flex items-center gap-3">
                            <span class="w-2 h-2 rounded-full bg-neon-green animate-pulse"></span>
                            <span class="font-medium text-void-100">"#.to_owned();
    push_str(&mut r, client.as_str());
    push_str(&mut r, r#"</span>
                        </div>
                    </td>
                    <td class="px-6 py-4 text-void-400 font-mono text-sm">"#);
    push_str(&mut r, vpn_ip.as_str());
    push_str(&mut r, r#"</td>
                    <td class="px-6 py-4 text-void-400 font-mono text-sm">"#);
    push_str(&mut r, real_ip.as_str());
    push_str(&mut r, r#"</td>
                    <td class="px-6 py-4 text-void-400 text-sm">"#);
    push_str(&mut r, connected_at.as_str());
    push_str(&mut r, r#"</td>
                    <td class="px-6 py-4 text-void-400 text-sm">"#);
    push_str(&mut r, data_usage.as_str());
    push_str(&mut r, r#"</td>
                    <td class="px-6 py-4">
                        <form action="/admin/sessions/"#);
    push_str(&mut r, id.as_str());
    push_str(&mut r, r#"/disconnect" method="POST" class="inline" onsubmit="return confirm('Disconnect this session?')">
                            <input type="hidden" name="csrf_token" value=""#);
    push_str(&mut r, csrf_token);
    push_str(&mut r, r#"">
                            <button type="submit" class="px-3 py-1 rounded-lg bg-neon-pink/10 text-neon-pink text-sm font-medium hover:bg-neon-pink/20 transition-colors">
                                Disconnect
                            </button>
                        </form>
                    </td>
                </tr>
            "#);
    r
}

fn session_rows(sessions: &[SessionInfo], csrf_token: &str) -> (r: String)
    ensures
        r@ == session_rows_text(sessions@, csrf_token@),
{
    if sessions.len() == 0 {
        return r#"
            <tr>
                <td colspan="6" class="px-6 py-12 text-center text-void-500">
                    <svg class="w-12 h-12 mx-auto mb-4 text-void-600" fill="none" stroke="currentColor" viewBox="0 0 24 24">
                        <path stroke-linecap="round" stroke-linejoin="round" stroke-width="2" d="M8.111 16.404a5.5 5.5 0 017.778 0M12 20h.01m-7.08-7.071c3.904-3.905 10.236-3.905 14.141 0M1.394 9.393c5.857-5.857 15.355-5.857 21.213 0"/>
                    </svg>
                    <p class="font-medium">No active sessions</p>
                    <p class="text-sm mt-1">Sessions will appear when clients connect</p>
                </td>
            </tr>
        "#.to_owned();
    }
    let mut rows = String::new();
    let mut i: usize = 0;
    while i < sessions.len()
        invariant
            i <= sessions@.len(),
            rows@ == session_rows_concat(sessions@.subrange(0, i as int), csrf_token@),
        decreases sessions@.len() - i,
    {
        let row = session_row(&sessions[i], csrf_token);
        push_str(&mut rows, row.as_str());
        proof {
            let next = sessions@.subrange(0, i + 1);
            assert(next.drop_last() =~= sessions@.subrange(0, i as int));
            assert(next.last() == sessions@[i as int]);
        }
        i = i + 1;
    }
    assert(sessions@.subrange(0, sessions@.len() as int) =~= sessions@);
    rows
}

/// The content of the sessions list page.
pub open spec fn sessions_list_content(rows: Seq<char>) -> Seq<char> {
    r#"
        "#@ + nav_text("sessions"@) + r#"
        <main class="ml-64 p-8">
            <header class="mb-8">
                <h1 class="text-3xl font-bold text-void-50">Active Sessions</h1>
                <p class="text-void-400 mt-1">Currently connected VPN clients</p>
            </header>

            <div class="glass rounded-xl overflow-hidden">
                <table class="w-full">
                    <thead class="bg-void-900/50 border-b border-void-700/30">
                        <tr>
                            <th class="px-6 py-4 text-left text-xs font-semibold text-void-400 uppercase tracking-wider">Client</th>
                            <th class="px-6 py-4 text-left text-xs font-semibold text-void-400 uppercase tracking-wider">VPN IP</th>
                            <th class="px-6 py-4 text-left text-xs font-semibold text-void-400 uppercase tracking-wider">Real IP</th>
                            <th class="px-6 py-4 text-left text-xs font-semibold text-void-400 uppercase tracking-wider">Connected</th>
                            <th class="px-6 py-4 text-left text-xs font-semibold text-void-400 uppercase tracking-wider">Data Usage</th>
                            <th class="px-6 py-4 text-left text-xs font-semibold text-void-400 uppercase tracking-wider">Actions</th>
                        </tr>
                    </thead>
                    <tbody>
                        "#@ + rows + r#"
                    </tbody>
                </table>
            </div>
        </main>
    "#@
}

/// Sessions list page.
pub fn sessions_list(sessions: &[SessionInfo], csrf_token: &str) -> (page: String)
    ensures
        page@ == base_text("Sessions"@, sessions_list_content(session_rows_text(sessions@, csrf_token@))),
{
    let rows = session_rows(sessions, csrf_token);
    let nav_html = nav("sessions");
    let mut r = r#"
        "#.to_owned();
    push_str(&mut r, nav_html.as_str());
    push_str(&mut r, r#"
        <main class="ml-64 p-8">
            <header class="mb-8">
                <h1 class="text-3xl font-bold text-void-50">Active Sessions</h1>
                <p class="text-void-400 mt-1">Currently connected VPN clients</p>
            </header>

            <div class="glass rounded-xl overflow-hidden">
                <table class="w-full">
                    <thead class="bg-void-900/50 border-b border-void-700/30">
                        <tr>
                            <th class="px-6 py-4 text-left text-xs font-semibold text-void-400 uppercase tracking-wider">Client</th>
                            <th class="px-6 py-4 text-left text-xs font-semibold text-void-400 uppercase tracking-wider">VPN IP</th>
                            <th class="px-6 py-4 text-left text-xs font-semibold text-void-400 uppercase tracking-wider">Real IP</th>
                            <th class="px-6 py-4 text-left text-xs font-semibold text-void-400 uppercase tracking-wider">Connected</th>
                            <th class="px-6 py-4 text-left text-xs font-semibold text-void-400 uppercase tracking-wider">Data Usage</th>
                            <th class="px-6 py-4 text-left text-xs font-semibold text-void-400 uppercase tracking-wider">Actions</th>
                        </tr>
                    </thead>
                    <tbody>
                        "#);
    push_str(&mut r, rows.as_str());
    push_str(&mut r, r#"
                    </tbody>
                </table>
            </div>
        </main>
    "#);
    base("Sessions", r.as_str())
}

/// The content of the settings page.
pub open spec fn settings_content(public_host: Seq<char>, port: u16, protocol: Seq<char>, subnet: Seq<char>, max_clients: u32, oauth_status: Seq<char>, csrf_token: Seq<char>) -> Seq<char> {
    r#"
        "#@ + nav_text("settings"@) + r#"
        <main class="ml-64 p-8">
            <header class="mb-8">
                <h1 class="text-3xl font-bold text-void-50">Settings</h1>
                <p class="text-void-400 mt-1">Server configuration and options</p>
            </header>

            <div class="grid gap-6 max-w-4xl">
                <!-- Server Settings -->
                <div class="glass rounded-xl p-6">
                    <h2 class="text-lg font-semibold text-void-50 mb-6 flex items-center gap-2">
                        <svg class="w-5 h-5 text-neon-green" fill="none" stroke="currentColor" viewBox="0 0 24 24">
                            <path stroke-linecap="round" stroke-linejoin="round" stroke-width="2" d="M5 12h14M5 12a2 2 0 01-2-2V6a2 2 0 012-2h14a2 2 0 012 2v4a2 2 0 01-2 2M5 12a2 2 0 00-2 2v4a2 2 0 002 2h14a2 2 0 002-2v-4a2 2 0 00-2-2m-2-4h.01M17 16h.01"/>
                        </svg>
                        Server Configuration
                    </h2>
                    <div class="grid grid-cols-2 gap-4">
                        <div class="bg-void-900/50 rounded-lg p-4">
                            <p class="text-void-500 text-xs uppercase tracking-wider mb-1">Public Host</p>
                            <p class="text-void-100 font-mono">"#@ + public_host + r#"</p>
                        </div>
                        <div class="bg-void-900/50 rounded-lg p-4">
                            <p class="text-void-500 text-xs uppercase tracking-wider mb-1">Port / Protocol</p>
                            <p class="text-void-100 font-mono">"#@ + decimal(port as nat) + r#"/"#@ + upper_of(protocol) + r#"</p>
                        </div>
                        <div class="bg-void-900/50 rounded-lg p-4">
                            <p class="text-void-500 text-xs uppercase tracking-wider mb-1">VPN Subnet</p>
                            <p class="text-void-100 font-mono">"#@ + subnet + r#"</p>
                        </div>
                        <div class="bg-void-900/50 rounded-lg p-4">
                            <p class="text-void-500 text-xs uppercase tracking-wider mb-1">Max Clients</p>
                            <p class="text-void-100 font-mono">"#@ + decimal(max_clients as nat) + r#"</p>
                        </div>
                    </div>
                </div>

                <!-- Security Settings -->
                <div class="glass rounded-xl p-6">
                    <h2 class="text-lg font-semibold text-void-50 mb-6 flex items-center gap-2">
                        <svg class="w-5 h-5 text-neon-blue" fill="none" stroke="currentColor" viewBox="0 0 24 24">
                            <path stroke-linecap="round" stroke-linejoin="round" stroke-width="2" d="M12 15v2m-6 4h12a2 2 0 002-2v-6a2 2 0 00-2-2H6a2 2 0 00-2 2v6a2 2 0 002 2zm10-10V7a4 4 0 00-8 0v4h8z"/>
                        </svg>
                        Security & Authentication
                    </h2>
                    <div class="space-y-4">
                        <div class="flex items-center justify-between p-4 bg-void-900/50 rounded-lg">
                            <div>
                                <p class="font-medium text-void-100">OAuth2 / SSO</p>
                                <p class="text-sm text-void-500">Single Sign-On authentication</p>
                            </div>
                            "#@ + oauth_status + r#"
                        </div>
                        <div class="flex items-center justify-between p-4 bg-void-900/50 rounded-lg">
                            <div>
                                <p class="font-medium text-void-100">TLS Auth</p>
                                <p class="text-sm text-void-500">Additional HMAC authentication</p>
                            </div>
                            <span class="text-neon-green">Enabled</span>
                        </div>
                        <div class="flex items-center justify-between p-4 bg-void-900/50 rounded-lg">
                            <div>
                                <p class="font-medium text-void-100">Perfect Forward Secrecy</p>
                                <p class="text-sm text-void-500">ECDHE key exchange</p>
                            </div>
                            <span class="text-neon-green">Enabled</span>
                        </div>
                    </div>
                </div>

                <!-- Danger Zone -->
                <div class="glass rounded-xl p-6 border border-neon-pink/20">
                    <h2 class="text-lg font-semibold text-neon-pink mb-6 flex items-center gap-2">
                        <svg class="w-5 h-5" fill="none" stroke="currentColor" viewBox="0 0 24 24">
                            <path stroke-linecap="round" stroke-linejoin="round" stroke-width="2" d="M12 9v2m0 4h.01m-6.938 4h13.856c1.54 0 2.502-1.667 1.732-3L13.732 4c-.77-1.333-2.694-1.333-3.464 0L3.34 16c-.77 1.333.192 3 1.732 3z"/>
                        </svg>
                        Danger Zone
                    </h2>
                    <div class="space-y-4">
                        <div class="flex items-center justify-between p-4 bg-neon-pink/5 rounded-lg border border-neon-pink/10">
                            <div>
                                <p class="font-medium text-void-100">Regenerate CA</p>
                                <p class="text-sm text-void-500">Invalidates all existing client certificates</p>
                            </div>
                            <button class="px-4 py-2 bg-neon-pink/10 text-neon-pink rounded-lg text-sm font-medium hover:bg-neon-pink/20 transition-colors" onclick="alert('This would regenerate the CA in production')">
                                Regenerate
                            </button>
                        </div>
                        <div class="flex items-center justify-between p-4 bg-neon-pink/5 rounded-lg border border-neon-pink/10">
                            <div>
                                <p class="font-medium text-void-100">Disconnect All</p>
                                <p class="text-sm text-void-500">Force disconnect all active sessions</p>
                            </div>
                            <form action="/admin/sessions/disconnect-all" method="POST" onsubmit="return confirm('Disconnect all sessions?')">
                                <input type="hidden" name="csrf_token" value=""#@ + html_escape_text(csrf_token) + r#"">
                                <button type="submit" class="px-4 py-2 bg-neon-pink/10 text-neon-pink rounded-lg text-sm font-medium hover:bg-neon-pink/20 transition-colors">
                                    Disconnect All
                                </button>
                            </form>
                        </div>
                    </div>
                </div>
            </div>
        </main>
    "#@
}

/// The OAuth line of the settings page.
pub open spec fn oauth_status_text(enabled: bool, provider: Option<Seq<char>>) -> Seq<char> {
    if enabled {
        let provider = match provider { Some(p) => p, None => "unknown"@ };
        r#"<span class="text-neon-green">Enabled ("#@ + provider + r#")</span>"#@
    } else {
        r#"<span class="text-void-400">Disabled</span>"#@
    }
}

/// Settings page.
pub fn settings(
    public_host: &str,
    port: u16,
    protocol: &str,
    subnet: &str,
    max_clients: u32,
    oauth_enabled: bool,
    oauth_provider: Option<&str>,
    csrf_token: &str,
) -> (page: String)
    ensures
        page@ == base_text(
            "Settings"@,
            settings_content(
                public_host@,
                port,
                protocol@,
                subnet@,
                max_clients,
                oauth_status_text(oauth_enabled, match oauth_provider { Some(p) => Some(p@), None => None }),
                csrf_token@,
            ),
        ),
{
    let oauth_status = if oauth_enabled {
        let provider = match oauth_provider { Some(p) => p, None => "unknown" };
        let mut r = r#"<span class="text-neon-green">Enabled ("#.to_owned();
        push_str(&mut r, provider);
        push_str(&mut r, r#")</span>"#);
        r
    } else {
        r#"<span class="text-void-400">Disabled</span>"#.to_owned()
    };
    let nav_html = nav("settings");
    let protocol_upper = to_uppercase(protocol);
    let csrf_escaped = html_escape(csrf_token);
    let mut r = r#"
        "#.to_owned();
    push_str(&mut r, nav_html.as_str());
    push_str(&mut r, r#"
        <main class="ml-64 p-8">
            <header class="mb-8">
                <h1 class="text-3xl font-bold text-void-50">Settings</h1>
                <p class="text-void-400 mt-1">Server configuration and options</p>
            </header>

            <div class="grid gap-6 max-w-4xl">
                <!-- Server Settings -->
                <div class="glass rounded-xl p-6">
                    <h2 class="text-lg font-semibold text-void-50 mb-6 flex items-center gap-2">
                        <svg class="w-5 h-5 text-neon-green" fill="none" stroke="currentColor" viewBox="0 0 24 24">
                            <path stroke-linecap="round" stroke-linejoin="round" stroke-width="2" d="M5 12h14M5 12a2 2 0 01-2-2V6a2 2 0 012-2h14a2 2 0 012 2v4a2 2 0 01-2 2M5 12a2 2 0 00-2 2v4a2 2 0 002 2h14a2 2 0 002-2v-4a2 2 0 00-2-2m-2-4h.01M17 16h.01"/>
                        </svg>
                        Server Configuration
                    </h2>
                    <div class="grid grid-cols-2 gap-4">
                        <div class="bg-void-900/50 rounded-lg p-4">
                            <p class="text-void-500 text-xs uppercase tracking-wider mb-1">Public Host</p>
                            <p class="text-void-100 font-mono">"#);
    push_str(&mut r, public_host);
    push_str(&mut r, r#"</p>
                        </div>
                        <div class="bg-void-900/50 rounded-lg p-4">
                            <p class="text-void-500 text-xs uppercase tracking-wider mb-1">Port / Protocol</p>
                            <p class="text-void-100 font-mono">"#);
    write_decimal(&mut r, port as u64);
    push_str(&mut r, r#"/"#);
    push_str(&mut r, protocol_upper.as_str());
    push_str(&mut r, r#"</p>
                        </div>
                        <div class="bg-void-900/50 rounded-lg p-4">
                            <p class="text-void-500 text-xs uppercase tracking-wider mb-1">VPN Subnet</p>
                            <p class="text-void-100 font-mono">"#);
    push_str(&mut r, subnet);
    push_str(&mut r, r#"</p>
                        </div>
                        <div class="bg-void-900/50 rounded-lg p-4">
                            <p class="text-void-500 text-xs uppercase tracking-wider mb-1">Max Clients</p>
                            <p class="text-void-100 font-mono">"#);
    write_decimal(&mut r, max_clients as u64);
    push_str(&mut r, r#"</p>
                        </div>
                    </div>
                </div>

                <!-- Security Settings -->
                <div class="glass rounded-xl p-6">
                    <h2 class="text-lg font-semibold text-void-50 mb-6 flex items-center gap-2">
                        <svg class="w-5 h-5 text-neon-blue" fill="none" stroke="currentColor" viewBox="0 0 24 24">
                            <path stroke-linecap="round" stroke-linejoin="round" stroke-width="2" d="M12 15v2m-6 4h12a2 2 0 002-2v-6a2 2 0 00-2-2H6a2 2 0 00-2 2v6a2 2 0 002 2zm10-10V7a4 4 0 00-8 0v4h8z"/>
                        </svg>
                        Security & Authentication
                    </h2>
                    <div class="space-y-4">
                        <div class="flex items-center justify-between p-4 bg-void-900/50 rounded-lg">
                            <div>
                                <p class="font-medium text-void-100">OAuth2 / SSO</p>
                                <p class="text-sm text-void-500">Single Sign-On authentication</p>
                            </div>
                            "#);
    push_str(&mut r, oauth_status.as_str());
    push_str(&mut r, r#"
                        </div>
                        <div class="flex items-center justify-between p-4 bg-void-900/50 rounded-lg">
                            <div>
                                <p class="font-medium text-void-100">TLS Auth</p>
                                <p class="text-sm text-void-500">Additional HMAC authentication</p>
                            </div>
                            <span class="text-neon-green">Enabled</span>
                        </div>
                        <div class="flex items-center justify-between p-4 bg-void-900/50 rounded-lg">
                            <div>
                                <p class="font-medium text-void-100">Perfect Forward Secrecy</p>
                                <p class="text-sm text-void-500">ECDHE key exchange</p>
                            </div>
                            <span class="text-neon-green">Enabled</span>
                        </div>
                    </div>
                </div>

                <!-- Danger Zone -->
                <div class="glass rounded-xl p-6 border border-neon-pink/20">
                    <h2 class="text-lg font-semibold text-neon-pink mb-6 flex items-center gap-2">
                        <svg class="w-5 h-5" fill="none" stroke="currentColor" viewBox="0 0 24 24">
                            <path stroke-linecap="round" stroke-linejoin="round" stroke-width="2" d="M12 9v2m0 4h.01m-6.938 4h13.856c1.54 0 2.502-1.667 1.732-3L13.732 4c-.77-1.333-2.694-1.333-3.464 0L3.34 16c-.77 1.333.192 3 1.732 3z"/>
                        </svg>
                        Danger Zone
                    </h2>
                    <div class="space-y-4">
                        <div class="flex items-center justify-between p-4 bg-neon-pink/5 rounded-lg border border-neon-pink/10">
                            <div>
                                <p class="font-medium text-void-100">Regenerate CA</p>
                                <p class="text-sm text-void-500">Invalidates all existing client certificates</p>
                            </div>
                            <button class="px-4 py-2 bg-neon-pink/10 text-neon-pink rounded-lg text-sm font-medium hover:bg-neon-pink/20 transition-colors" onclick="alert('This would regenerate the CA in production')">
                                Regenerate
                            </button>
                        </div>
                        <div class="flex items-center justify-between p-4 bg-neon-pink/5 rounded-lg border border-neon-pink/10">
                            <div>
                                <p class="font-medium text-void-100">Disconnect All</p>
                                <p class="text-sm text-void-500">Force disconnect all active sessions</p>
                            </div>
                            <form action="/admin/sessions/disconnect-all" method="POST" onsubmit="return confirm('Disconnect all sessions?')">
                                <input type="hidden" name="csrf_token" value=""#);
    push_str(&mut r, csrf_escaped.as_str());
    push_str(&mut r, r#"">
                                <button type="submit" class="px-4 py-2 bg-neon-pink/10 text-neon-pink rounded-lg text-sm font-medium hover:bg-neon-pink/20 transition-colors">
                                    Disconnect All
                                </button>
                            </form>
                        </div>
                    </div>
                </div>
            </div>
        </main>
    "#);
    base("Settings", r.as_str())
}

/// The content of the download page.
pub open spec fn client_download_content(client_name: Seq<char>, filename: Seq<char>, ovpn_content: Seq<char>) -> Seq<char> {
    r#"
        "#@ + nav_text("clients"@) + r#"
        <main class="ml-64 p-8">
            <div class="max-w-xl mx-auto text-center py-12">
                <div class="w-20 h-20 mx-auto mb-6 rounded-full bg-neon-green/10 flex items-center justify-center glow-green">
                    <svg class="w-10 h-10 text-neon-green" fill="none" stroke="currentColor" viewBox="0 0 24 24">
                        <path stroke-linecap="round" stroke-linejoin="round" stroke-width="2" d="M5 13l4 4L19 7"/>
                    </svg>
                </div>
                <h1 class="text-2xl font-bold text-void-50 mb-2">Client Created Successfully</h1>
                <p class="text-void-400 mb-8">Configuration for <strong class="text-neon-green">"#@ + html_escape_text(client_name) + r#"</strong> is ready</p>

                <div class="glass rounded-xl p-6 mb-8">
                    <p class="text-void-500 text-sm mb-4">Your download should start automatically. If not, click below:</p>
                    <a id="download-link" download=""#@ + html_escape_text(filename) + r#"" href="data:application/x-openvpn-profile;base64,"#@ + base64_text_of(vstd::utf8::encode_utf8(ovpn_content)) + r#"" class="inline-flex items-center gap-2 px-6 py-3 bg-neon-green text-void-950 rounded-lg font-semibold hover:bg-neon-green/90 transition-colors glow-green">
                        <svg class="w-5 h-5" fill="none" stroke="currentColor" viewBox="0 0 24 24">
                            <path stroke-linecap="round" stroke-linejoin="round" stroke-width="2" d="M4 16v1a3 3 0 003 3h10a3 3 0 003-3v-1m-4-4l-4 4m0 0l-4-4m4 4V4"/>
                        </svg>
                        Download "#@ + html_escape_text(filename) + r#"
                    </a>
                </div>

                <div class="text-left glass rounded-xl p-6 mb-6">
                    <h2 class="font-semibold text-void-100 mb-4">Next Steps</h2>
                    <ol class="space-y-3 text-void-400 text-sm">
                        <li class="flex items-start gap-3">
                            <span class="flex-shrink-0 w-6 h-6 rounded-full bg-neon-blue/10 text-neon-blue text-xs flex items-center justify-center font-bold">1</span>
                            <span>Transfer the .ovpn file to your device</span>
                        </li>
                        <li class="flex items-start gap-3">
                            <span class="flex-shrink-0 w-6 h-6 rounded-full bg-neon-blue/10 text-neon-blue text-xs flex items-center justify-center font-bold">2</span>
                            <span>Import into your OpenVPN client (OpenVPN Connect, Tunnelblick, etc.)</span>
                        </li>
                        <li class="flex items-start gap-3">
                            <span class="flex-shrink-0 w-6 h-6 rounded-full bg-neon-blue/10 text-neon-blue text-xs flex items-center justify-center font-bold">3</span>
                            <span>Connect and enjoy secure browsing!</span>
                        </li>
                    </ol>
                </div>

                <!-- Config Preview (collapsed by default) -->
                <details class="text-left glass rounded-xl p-6 mb-8">
                    <summary class="font-semibold text-void-100 cursor-pointer flex items-center gap-2">
                        <svg class="w-5 h-5 text-void-400" fill="none" stroke="currentColor" viewBox="0 0 24 24">
                            <path stroke-linecap="round" stroke-linejoin="round" stroke-width="2" d="M10 20l4-16m4 4l4 4-4 4M6 16l-4-4 4-4"/>
                        </svg>
                        View Configuration
                    </summary>
                    <pre class="mt-4 p-4 bg-void-900/50 rounded-lg text-xs text-void-300 font-mono overflow-x-auto max-h-64 overflow-y-auto">"#@ + html_escape_text(ovpn_content) + r#"</pre>
                </details>

                <a href="/admin/clients" class="inline-flex items-center gap-2 text-void-400 hover:text-void-100 transition-colors">
                    <svg class="w-4 h-4" fill="none" stroke="currentColor" viewBox="0 0 24 24">
                        <path stroke-linecap="round" stroke-linejoin="round" stroke-width="2" d="M15 19l-7-7 7-7"/>
                    </svg>
                    Back to Clients
                </a>
            </div>
        </main>
        <script>
            // Auto-download the file on page load
            document.addEventListener('DOMContentLoaded', function() {
                setTimeout(function() {
                    document.getElementById('download-link').click();
                }, 500);
            });
        </script>
    "#@
}

/// Client download page: the configuration embedded as a base64 data URL and previewed.
pub fn client_download(client_name: &str, filename: &str, ovpn_content: &str) -> (page: String)
    ensures
        page@ == base_text("Download Config"@, client_download_content(client_name@, filename@, ovpn_content@)),
{
    let encoded = base64_encode(ovpn_content.as_bytes());
    let nav_html = nav("clients");
    let name_escaped = html_escape(client_name);
    let file_escaped = html_escape(filename);
    let preview = html_escape(ovpn_content);
    let mut r = r#"
        "#.to_owned();
    push_str(&mut r, nav_html.as_str());
    push_str(&mut r, r#"
        <main class="ml-64 p-8">
            <div class="max-w-xl mx-auto text-center py-12">
                <div class="w-20 h-20 mx-auto mb-6 rounded-full bg-neon-green/10 flex items-center justify-center glow-green">
                    <svg class="w-10 h-10 text-neon-green" fill="none" stroke="currentColor" viewBox="0 0 24 24">
                        <path stroke-linecap="round" stroke-linejoin="round" stroke-width="2" d="M5 13l4 4L19 7"/>
                    </svg>
                </div>
                <h1 class="text-2xl font-bold text-void-50 mb-2">Client Created Successfully</h1>
                <p class="text-void-400 mb-8">Configuration for <strong class="text-neon-green">"#);
    push_str(&mut r, name_escaped.as_str());
    push_str(&mut r, r#"</strong> is ready</p>

                <div class="glass rounded-xl p-6 mb-8">
                    <p class="text-void-500 text-sm mb-4">Your download should start automatically. If not, click below:</p>
                    <a id="download-link" download=""#);
    push_str(&mut r, file_escaped.as_str());
    push_str(&mut r, r#"" href="data:application/x-openvpn-profile;base64,"#);
    push_str(&mut r, encoded.as_str());
    push_str(&mut r, r#"" class="inline-flex items-center gap-2 px-6 py-3 bg-neon-green text-void-950 rounded-lg font-semibold hover:bg-neon-green/90 transition-colors glow-green">
                        <svg class="w-5 h-5" fill="none" stroke="currentColor" viewBox="0 0 24 24">
                            <path stroke-linecap="round" stroke-linejoin="round" stroke-width="2" d="M4 16v1a3 3 0 003 3h10a3 3 0 003-3v-1m-4-4l-4 4m0 0l-4-4m4 4V4"/>
                        </svg>
                        Download "#);
    push_str(&mut r, file_escaped.as_str());
    push_str(&mut r, r#"
                    </a>
                </div>

                <div class="text-left glass rounded-xl p-6 mb-6">
                    <h2 class="font-semibold text-void-100 mb-4">Next Steps</h2>
                    <ol class="space-y-3 text-void-400 text-sm">
                        <li class="flex items-start gap-3">
                            <span class="flex-shrink-0 w-6 h-6 rounded-full bg-neon-blue/10 text-neon-blue text-xs flex items-center justify-center font-bold">1</span>
                            <span>Transfer the .ovpn file to your device</span>
                        </li>
                        <li class="flex items-start gap-3">
                            <span class="flex-shrink-0 w-6 h-6 rounded-full bg-neon-blue/10 text-neon-blue text-xs flex items-center justify-center font-bold">2</span>
                            <span>Import into your OpenVPN client (OpenVPN Connect, Tunnelblick, etc.)</span>
                        </li>
                        <li class="flex items-start gap-3">
                            <span class="flex-shrink-0 w-6 h-6 rounded-full bg-neon-blue/10 text-neon-blue text-xs flex items-center justify-center font-bold">3</span>
                            <span>Connect and enjoy secure browsing!</span>
                        </li>
                    </ol>
                </div>

                <!-- Config Preview (collapsed by default) -->
                <details class="text-left glass rounded-xl p-6 mb-8">
                    <summary class="font-semibold text-void-100 cursor-pointer flex items-center gap-2">
                        <svg class="w-5 h-5 text-void-400" fill="none" stroke="currentColor" viewBox="0 0 24 24">
                            <path stroke-linecap="round" stroke-linejoin="round" stroke-width="2" d="M10 20l4-16m4 4l4 4-4 4M6 16l-4-4 4-4"/>
                        </svg>
                        View Configuration
                    </summary>
                    <pre class="mt-4 p-4 bg-void-900/50 rounded-lg text-xs text-void-300 font-mono overflow-x-auto max-h-64 overflow-y-auto">"#);
    push_str(&mut r, preview.as_str());
    push_str(&mut r, r#"</pre>
                </details>

                <a href="/admin/clients" class="inline-flex items-center gap-2 text-void-400 hover:text-void-100 transition-colors">
                    <svg class="w-4 h-4" fill="none" stroke="currentColor" viewBox="0 0 24 24">
                        <path stroke-linecap="round" stroke-linejoin="round" stroke-width="2" d="M15 19l-7-7 7-7"/>
                    </svg>
                    Back to Clients
                </a>
            </div>
        </main>
        <script>
            // Auto-download the file on page load
            document.addEventListener('DOMContentLoaded', function() {
                setTimeout(function() {
                    document.getElementById('download-link').click();
                }, 500);
            });
        </script>
    "#);
    base("Download Config", r.as_str())
}

/// The content of the quick generate page.
pub open spec fn quick_generate_content(csrf_token: Seq<char>) -> Seq<char> {
    r#"
        "#@ + nav_text("clients"@) + r#"
        <main class="ml-64 p-8">
            <header class="mb-8">
                <a href="/admin/clients" class="inline-flex items-center gap-2 text-void-400 hover:text-void-100 transition-colors mb-4">
                    <svg class="w-4 h-4" fill="none" stroke="currentColor" viewBox="0 0 24 24">
                        <path stroke-linecap="round" stroke-linejoin="round" stroke-width="2" d="M15 19l-7-7 7-7"/>
                    </svg>
                    Back to Clients
                </a>
                <h1 class="text-3xl font-bold text-void-50">Quick Generate .ovpn</h1>
                <p class="text-void-400 mt-1">Generate and download a VPN configuration instantly</p>
            </header>

            <div class="max-w-xl">
                <div class="glass rounded-xl p-8">
                    <form action="/admin/clients/quick-generate" method="POST" class="space-y-6">
                        <input type="hidden" name="csrf_token" value=""#@ + csrf_token + r#"">
                        <div>
                            <label for="name" class="block text-sm font-medium text-void-300 mb-2">Client Name</label>
                            <input type="text" id="name" name="name" required
                                class="w-full px-4 py-3 bg-void-900/50 border border-void-700/50 rounded-lg text-void-100 placeholder-void-500 focus:outline-none focus:border-neon-green focus:ring-1 focus:ring-neon-green transition-colors"
                                placeholder="e.g., johns-laptop, mobile-phone">
                            <p class="text-xs text-void-500 mt-1">Used in the certificate and filename</p>
                        </div>

                        <div class="flex items-center gap-3 p-4 bg-void-900/50 rounded-lg">
                            <input type="checkbox" id="mobile" name="mobile" value="true"
                                class="w-4 h-4 text-neon-green bg-void-900 border-void-600 rounded focus:ring-neon-green focus:ring-2">
                            <label for="mobile" class="text-void-300">
                                <span class="font-medium">Mobile optimized</span>
                                <span class="block text-xs text-void-500">Includes settings for mobile networks (reconnection, retry)</span>
                            </label>
                        </div>

                        <button type="submit" class="w-full flex items-center justify-center gap-2 px-6 py-3 bg-neon-green text-void-950 rounded-lg font-semibold hover:bg-neon-green/90 transition-colors glow-green">
                            <svg class="w-5 h-5" fill="none" stroke="currentColor" viewBox="0 0 24 24">
                                <path stroke-linecap="round" stroke-linejoin="round" stroke-width="2" d="M4 16v1a3 3 0 003 3h10a3 3 0 003-3v-1m-4-4l-4 4m0 0l-4-4m4 4V4"/>
                            </svg>
                            Generate & Download .ovpn
                        </button>
                    </form>
                </div>

                <div class="mt-8 glass rounded-xl p-6">
                    <h3 class="font-semibold text-void-100 mb-4 flex items-center gap-2">
                        <svg class="w-5 h-5 text-neon-blue" fill="none" stroke="currentColor" viewBox="0 0 24 24">
                            <path stroke-linecap="round" stroke-linejoin="round" stroke-width="2" d="M13 16h-1v-4h-1m1-4h.01M21 12a9 9 0 11-18 0 9 9 0 0118 0z"/>
                        </svg>
                        About Quick Generate
                    </h3>
                    <ul class="space-y-2 text-void-400 text-sm">
                        <li class="flex items-start gap-2">
                            <span class="text-neon-green">✓</span>
                            Generates a fresh certificate and private key
                        </li>
                        <li class="flex items-start gap-2">
                            <span class="text-neon-green">✓</span>
                            Downloads immediately without saving to database
                        </li>
                        <li class="flex items-start gap-2">
                            <span class="text-neon-green">✓</span>
                            Configuration is ready to import into OpenVPN clients
                        </li>
                        <li class="flex items-start gap-2">
                            <span class="text-neon-yellow">⚠</span>
                            For tracked clients with revocation, use "Add Client" instead
                        </li>
                    </ul>
                </div>
            </div>
        </main>
    "#@
}

/// Quick generate page: a form that generates and downloads a configuration at once.
pub fn quick_generate(csrf_token: &str) -> (page: String)
    ensures
        page@ == base_text("Quick Generate"@, quick_generate_content(csrf_token@)),
{
    let nav_html = nav("clients");
    let mut r = r#"
        "#.to_owned();
    push_str(&mut r, nav_html.as_str());
    push_str(&mut r, r#"
        <main class="ml-64 p-8">
            <header class="mb-8">
                <a href="/admin/clients" class="inline-flex items-center gap-2 text-void-400 hover:text-void-100 transition-colors mb-4">
                    <svg class="w-4 h-4" fill="none" stroke="currentColor" viewBox="0 0 24 24">
                        <path stroke-linecap="round" stroke-linejoin="round" stroke-width="2" d="M15 19l-7-7 7-7"/>
                    </svg>
                    Back to Clients
                </a>
                <h1 class="text-3xl font-bold text-void-50">Quick Generate .ovpn</h1>
                <p class="text-void-400 mt-1">Generate and download a VPN configuration instantly</p>
            </header>

            <div class="max-w-xl">
                <div class="glass rounded-xl p-8">
                    <form action="/admin/clients/quick-generate" method="POST" class="space-y-6">
                        <input type="hidden" name="csrf_token" value=""#);
    push_str(&mut r, csrf_token);
    push_str(&mut r, r#"">
                        <div>
                            <label for="name" class="block text-sm font-medium text-void-300 mb-2">Client Name</label>
                            <input type="text" id="name" name="name" required
                                class="w-full px-4 py-3 bg-void-900/50 border border-void-700/50 rounded-lg text-void-100 placeholder-void-500 focus:outline-none focus:border-neon-green focus:ring-1 focus:ring-neon-green transition-colors"
                                placeholder="e.g., johns-laptop, mobile-phone">
                            <p class="text-xs text-void-500 mt-1">Used in the certificate and filename</p>
                        </div>

                        <div class="flex items-center gap-3 p-4 bg-void-900/50 rounded-lg">
                            <input type="checkbox" id="mobile" name="mobile" value="true"
                                class="w-4 h-4 text-neon-green bg-void-900 border-void-600 rounded focus:ring-neon-green focus:ring-2">
                            <label for="mobile" class="text-void-300">
                                <span class="font-medium">Mobile optimized</span>
                                <span class="block text-xs text-void-500">Includes settings for mobile networks (reconnection, retry)</span>
                            </label>
                        </div>

                        <button type="submit" class="w-full flex items-center justify-center gap-2 px-6 py-3 bg-neon-green text-void-950 rounded-lg font-semibold hover:bg-neon-green/90 transition-colors glow-green">
                            <svg class="w-5 h-5" fill="none" stroke="currentColor" viewBox="0 0 24 24">
                                <path stroke-linecap="round" stroke-linejoin="round" stroke-width="2" d="M4 16v1a3 3 0 003 3h10a3 3 0 003-3v-1m-4-4l-4 4m0 0l-4-4m4 4V4"/>
                            </svg>
                            Generate & Download .ovpn
                        </button>
                    </form>
                </div>

                <div class="mt-8 glass rounded-xl p-6">
                    <h3 class="font-semibold text-void-100 mb-4 flex items-center gap-2">
                        <svg class="w-5 h-5 text-neon-blue" fill="none" stroke="currentColor" viewBox="0 0 24 24">
                            <path stroke-linecap="round" stroke-linejoin="round" stroke-width="2" d="M13 16h-1v-4h-1m1-4h.01M21 12a9 9 0 11-18 0 9 9 0 0118 0z"/>
                        </svg>
                        About Quick Generate
                    </h3>
                    <ul class="space-y-2 text-void-400 text-sm">
                        <li class="flex items-start gap-2">
                            <span class="text-neon-green">✓</span>
                            Generates a fresh certificate and private key
                        </li>
                        <li class="flex items-start gap-2">
                            <span class="text-neon-green">✓</span>
                            Downloads immediately without saving to database
                        </li>
                        <li class="flex items-start gap-2">
                            <span class="text-neon-green">✓</span>
                            Configuration is ready to import into OpenVPN clients
                        </li>
                        <li class="flex items-start gap-2">
                            <span class="text-neon-yellow">⚠</span>
                            For tracked clients with revocation, use "Add Client" instead
                        </li>
                    </ul>
                </div>
            </div>
        </main>
    "#);
    base("Quick Generate", r.as_str())
}

/// The title and emoji of an error status.
pub open spec fn error_heading(status: u16) -> (Seq<char>, Seq<char>) {
    if status == 404 {
        ("Not Found"@, "🔍"@)
    } else if status == 403 {
        ("Forbidden"@, "🚫"@)
    } else if status == 500 {
        ("Server Error"@, "💥"@)
    } else {
        ("Error"@, "⚠️"@)
    }
}

/// The content of an error page.
pub open spec fn error_page_content(emoji: Seq<char>, status: u16, title: Seq<char>, message: Seq<char>) -> Seq<char> {
    r#"
        <div class="min-h-screen flex items-center justify-center p-8">
            <div class="text-center">
                <div class="text-6xl mb-6">"#@ + emoji + r#"</div>
                <h1 class="text-6xl font-bold text-neon-pink text-glow mb-4">"#@ + decimal(status as nat) + r#"</h1>
                <h2 class="text-2xl font-semibold text-void-100 mb-2">"#@ + html_escape_text(title) + r#"</h2>
                <p class="text-void-400 mb-8 max-w-md">"#@ + html_escape_text(message) + r#"</p>
                <a href="/admin" class="inline-flex items-center gap-2 px-6 py-3 bg-neon-green text-void-950 rounded-lg font-semibold hover:bg-neon-green/90 transition-colors glow-green">
                    <svg class="w-5 h-5" fill="none" stroke="currentColor" viewBox="0 0 24 24">
                        <path stroke-linecap="round" stroke-linejoin="round" stroke-width="2" d="M3 12l2-2m0 0l7-7 7 7M5 10v10a1 1 0 001 1h3m10-11l2 2m-2-2v10a1 1 0 01-1 1h-3m-6 0a1 1 0 001-1v-4a1 1 0 011-1h2a1 1 0 011 1v4a1 1 0 001 1m-6 0h6"/>
                    </svg>
                    Back to Dashboard
                </a>
            </div>
        </div>
    "#@
}

/// Error page.
pub fn error_page(status: u16, message: &str) -> (page: String)
    ensures
        page@ == base_text(
            "Error"@,
            error_page_content(error_heading(status).1, status, error_heading(status).0, message@),
        ),
{
    let (title, emoji) = if status == 404 {
        ("Not Found", "🔍")
    } else if status == 403 {
        ("Forbidden", "🚫")
    } else if status == 500 {
        ("Server Error", "💥")
    } else {
        ("Error", "⚠️")
    };
    let title_escaped = html_escape(title);
    let message_escaped = html_escape(message);
    let mut r = r#"
        <div class="min-h-screen flex items-center justify-center p-8">
            <div class="text-center">
                <div class="text-6xl mb-6">"#.to_owned();
    push_str(&mut r, emoji);
    push_str(&mut r, r#"</div>
                <h1 class="text-6xl font-bold text-neon-pink text-glow mb-4">"#);
    write_decimal(&mut r, status as u64);
    push_str(&mut r, r#"</h1>
                <h2 class="text-2xl font-semibold text-void-100 mb-2">"#);
    push_str(&mut r, title_escaped.as_str());
    push_str(&mut r, r#"</h2>
                <p class="text-void-400 mb-8 max-w-md">"#);
    push_str(&mut r, message_escaped.as_str());
    push_str(&mut r, r#"</p>
                <a href="/admin" class="inline-flex items-center gap-2 px-6 py-3 bg-neon-green text-void-950 rounded-lg font-semibold hover:bg-neon-green/90 transition-colors glow-green">
                    <svg class="w-5 h-5" fill="none" stroke="currentColor" viewBox="0 0 24 24">
                        <path stroke-linecap="round" stroke-linejoin="round" stroke-width="2" d="M3 12l2-2m0 0l7-7 7 7M5 10v10a1 1 0 001 1h3m10-11l2 2m-2-2v10a1 1 0 01-1 1h-3m-6 0a1 1 0 001-1v-4a1 1 0 011-1h2a1 1 0 011 1v4a1 1 0 001 1m-6 0h6"/>
                    </svg>
                    Back to Dashboard
                </a>
            </div>
        </div>
    "#);
    base("Error", r.as_str())
}

} // verus!
