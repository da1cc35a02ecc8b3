//! Clipboard images that WebKitGTK does not hand to the page: the bridge script that asks the
//! native side for them, and the script that delivers one back.
use vstd::prelude::*;
use crate::text::{digit_char, occurs_in, push_text};

verus! {

/// Script that asks the native side for a clipboard image when a paste brings none.
pub const CLIPBOARD_BRIDGE_JS: &'static str = r#"
(function () {
  if (window.__kotauriClipboardBridgeInstalled) return;
  window.__kotauriClipboardBridgeInstalled = true;

  function triggerNativeClipboardImage() {
    try {
      var now = Date.now();
      if (window.__kotauriClipboardLastReq && now - window.__kotauriClipboardLastReq < 600) {
        return;
      }
      window.__kotauriClipboardLastReq = now;
      var f = document.createElement('iframe');
      f.style.display = 'none';
      f.src = 'https://kotauri.internal/clipboard-image';
      document.body.appendChild(f);
      setTimeout(function () { try { f.remove(); } catch (e) {} }, 800);
    } catch (e) {
      console.warn('[KoTauri] clipboard-image bridge failed', e);
    }
  }

  async function browserClipboardHasImage() {
    if (!navigator.clipboard || !navigator.clipboard.read) return false;
    try {
      var items = await navigator.clipboard.read();
      for (var i = 0; i < items.length; i++) {
        var types = items[i].types || [];
        for (var j = 0; j < types.length; j++) {
          if (String(types[j]).indexOf('image/') === 0) return true;
        }
      }
    } catch (e) {
      return false;
    }
    return false;
  }

  function eventHasImage(e) {
    var cd = e && e.clipboardData;
    if (!cd) return false;
    var items = cd.items;
    if (items) {
      for (var i = 0; i < items.length; i++) {
        if (items[i].type && items[i].type.indexOf('image/') === 0) return true;
      }
    }
    var files = cd.files;
    if (files) {
      for (var k = 0; k < files.length; k++) {
        if (files[k].type && files[k].type.indexOf('image/') === 0) return true;
      }
    }
    return false;
  }

  function eventHasText(e) {
    var cd = e && e.clipboardData;
    if (!cd) return false;
    try {
      var t = cd.getData('text/plain');
      return !!(t && String(t).length > 0);
    } catch (err) {
      return false;
    }
  }

  document.addEventListener(
    'paste',
    function (e) {
      if (eventHasImage(e)) return;
      if (eventHasText(e)) return;
      // Paste "vazio" no WebKit: costuma ser imagem só no clipboard do SO.
      triggerNativeClipboardImage();
    },
    true
  );

  document.addEventListener(
    'keydown',
    function (e) {
      var key = e.key || '';
      if (!(e.ctrlKey || e.metaKey)) return;
      if (key !== 'v' && key !== 'V') return;
      // Em paralelo ao paste: se a Clipboard API do browser não vir imagem, usa GTK.
      browserClipboardHasImage().then(function (has) {
        if (!has) triggerNativeClipboardImage();
      });
    },
    true
  );

  window.kotauri = window.kotauri || {};
  window.kotauri.pasteClipboardImage = triggerNativeClipboardImage;

  window.__kotauriDeliverClipboardImage = function (b64, mime) {
    try {
      mime = mime || 'image/png';
      var binary = atob(b64);
      var bytes = new Uint8Array(binary.length);
      for (var i = 0; i < binary.length; i++) bytes[i] = binary.charCodeAt(i);
      var blob = new Blob([bytes], { type: mime });
      var file = new File([blob], 'clipboard.png', { type: mime });
      var dt = new DataTransfer();
      dt.items.add(file);

      function dispatchPaste(target) {
        if (!target) return false;
        // WebKit: ClipboardEvent() ignora clipboardData — define na Event base.
        var evt = new Event('paste', { bubbles: true, cancelable: true });
        try {
          Object.defineProperty(evt, 'clipboardData', {
            get: function () { return dt; }
          });
        } catch (errDef) {
          try {
            evt = new ClipboardEvent('paste', {
              bubbles: true,
              cancelable: true,
              clipboardData: dt
            });
          } catch (errClip) {
            return false;
          }
        }
        target.dispatchEvent(evt);
        return evt.defaultPrevented;
      }

      function dispatchDrop(target) {
        if (!target) return false;
        try {
          target.dispatchEvent(
            new DragEvent('dragenter', { bubbles: true, cancelable: true, dataTransfer: dt })
          );
          target.dispatchEvent(
            new DragEvent('dragover', { bubbles: true, cancelable: true, dataTransfer: dt })
          );
          var dropEvt = new DragEvent('drop', {
            bubbles: true,
            cancelable: true,
            dataTransfer: dt
          });
          target.dispatchEvent(dropEvt);
          return dropEvt.defaultPrevented;
        } catch (errDrop) {
          return false;
        }
      }

      var delivered = false;
      var composer =
        document.querySelector('.input-message-input') ||
        document.querySelector('[contenteditable="true"]') ||
        document.activeElement;

      if (dispatchPaste(composer)) delivered = true;
      if (!delivered && dispatchDrop(composer)) delivered = true;

      var zoneSelectors = [
        '.input-message-container',
        '.chat-input-container',
        '.bubbles',
        '#column-center',
        'body'
      ];
      for (var z = 0; z < zoneSelectors.length && !delivered; z++) {
        var zone = document.querySelector(zoneSelectors[z]);
        if (dispatchPaste(zone)) delivered = true;
        else if (dispatchDrop(zone)) delivered = true;
      }

      var inputs = document.querySelectorAll('input[type="file"]');
      for (var n = 0; n < inputs.length; n++) {
        var input = inputs[n];
        var accept = (input.accept || '').toLowerCase();
        if (
          accept &&
          accept.indexOf('image') === -1 &&
          accept.indexOf('*/*') === -1 &&
          accept !== ''
        ) {
          continue;
        }
        try {
          input.files = dt.files;
          input.dispatchEvent(new Event('input', { bubbles: true }));
          input.dispatchEvent(new Event('change', { bubbles: true }));
          delivered = true;
          break;
        } catch (errInput) {}
      }

      if (!delivered) {
        try {
          var tmp = document.createElement('input');
          tmp.type = 'file';
          tmp.accept = 'image/*';
          tmp.style.display = 'none';
          document.body.appendChild(tmp);
          tmp.files = dt.files;
          tmp.dispatchEvent(new Event('change', { bubbles: true }));
          setTimeout(function () { try { tmp.remove(); } catch (e) {} }, 1000);
          delivered = true;
        } catch (errTmp) {}
      }

      if (!delivered) {
        console.warn('[KoTauri] imagem do clipboard lida, mas não houve handler no Web K');
      } else {
        console.info('[KoTauri] imagem do clipboard entregue ao Web K');
      }
    } catch (err) {
      console.error('[KoTauri] deliver clipboard image failed', err);
    }
  };
})();
"#;

/// Delivery script up to the call of the page's delivery helper.
pub const DELIVER_GUARD_JS: &'static str = r#"(function(){
            if (typeof window.__kotauriDeliverClipboardImage === 'function') {
                "#;

/// The call of the delivery helper, up to its first argument.
pub const DELIVER_CALL_OPEN: &'static str = r#"window.__kotauriDeliverClipboardImage("#;

/// The rest of the call: the MIME type argument.
pub const DELIVER_CALL_CLOSE: &'static str = r#", 'image/png');"#;

/// Delivery script after the call: the warning when the helper is missing.
pub const DELIVER_FALLBACK_JS: &'static str = r#"
            } else {
                console.warn('[KoTauri] deliver helper ausente — reinicie o app');
            }
        })();"#;

/// The lower-case hexadecimal digit of `d < 16`.
pub open spec fn hex_digit(d: nat) -> char {
    if d < 10 {
        digit_char(d)
    } else {
        ((d + 87) as u8) as char
    }
}

/// How a JSON string writes `c`: quote, backslash and the ASCII control characters are escaped
/// (the five with a short form by it, the rest as `\u00xx`); every other character stands as is.
pub open spec fn json_escaped_char(c: char) -> Seq<char> {
    let v = c as u32;
    if c == '"' {
        seq!['\\', '"']
    } else if c == '\\' {
        seq!['\\', '\\']
    } else if v == 0x08 {
        seq!['\\', 'b']
    } else if v == 0x09 {
        seq!['\\', 't']
    } else if v == 0x0A {
        seq!['\\', 'n']
    } else if v == 0x0C {
        seq!['\\', 'f']
    } else if v == 0x0D {
        seq!['\\', 'r']
    } else if v < 0x20 {
        seq!['\\', 'u', '0', '0', hex_digit((v / 16) as nat), hex_digit((v % 16) as nat)]
    } else {
        seq![c]
    }
}

/// The characters of `s`, each written as a JSON string writes it.
pub open spec fn json_escaped(s: Seq<char>) -> Seq<char>
    decreases s.len(),
{
    if s.len() == 0 {
        Seq::empty()
    } else {
        json_escaped(s.drop_last()) + json_escaped_char(s.last())
    }
}

/// `s` as a JSON string literal, quotes included.
pub open spec fn json_string_literal(s: Seq<char>) -> Seq<char> {
    seq!['"'] + json_escaped(s) + seq!['"']
}

/// `serde_json`'s compact rendering of `Value::String(s)`: `s` between double quotes, with `"`,
/// `\` and the characters below U+0020 escaped and nothing else changed.
#[verifier::external_body]
fn json_string(s: &str) -> (r: String)
    ensures
        r@ == json_string_literal(s@),
{
    serde_json::Value::String(s.to_string()).to_string()
}

/// Script injected into the page: when a paste brings no image, it asks the native side through
/// the `kotauri.internal` bridge.
pub fn clipboard_image_bridge_js() -> (r: &'static str)
    ensures
        r@ == CLIPBOARD_BRIDGE_JS@,
{
    CLIPBOARD_BRIDGE_JS
}

/// The delivery script for a base64 PNG payload.
pub open spec fn deliver_script_text(png_base64: Seq<char>) -> Seq<char> {
    DELIVER_GUARD_JS@ + DELIVER_CALL_OPEN@ + json_string_literal(png_base64) + DELIVER_CALL_CLOSE@
        + DELIVER_FALLBACK_JS@
}

/// Script that hands the base64 PNG payload to the page's delivery helper.
pub fn deliver_clipboard_image_js(png_base64: &str) -> (r: String)
    ensures
        r@ == deliver_script_text(png_base64@),
{
    let payload = json_string(png_base64);
    let mut r = String::new();
    push_text(&mut r, DELIVER_GUARD_JS);
    push_text(&mut r, DELIVER_CALL_OPEN);
    push_text(&mut r, payload.as_str());
    push_text(&mut r, DELIVER_CALL_CLOSE);
    push_text(&mut r, DELIVER_FALLBACK_JS);
    r
}

/// What the clipboard reader hands on once the image was encoded as PNG: the bytes when there are
/// any, else nothing.
pub fn clipboard_png_payload(encoded: Option<Vec<u8>>) -> (r: Option<Vec<u8>>)
    ensures
        r == (match encoded {
            Some(bytes) => if bytes@.len() > 0 { Some(bytes) } else { None },
            None => None,
        }),
{
    match encoded {
        Some(bytes) => if bytes.len() > 0 { Some(bytes) } else { None },
        None => None,
    }
}

/// Whether JSON writes `c` as it is.
pub open spec fn json_plain_char(c: char) -> bool {
    c != '"' && c != '\\' && (c as u32) >= 0x20
}

proof fn lemma_json_escaped_plain(s: Seq<char>)
    requires
        forall|i: int| 0 <= i < s.len() ==> json_plain_char(#[trigger] s[i]),
    ensures
        json_escaped(s) == s,
    decreases s.len(),
{
    if s.len() > 0 {
        assert(json_plain_char(s[s.len() - 1]));
        assert forall|i: int| 0 <= i < s.drop_last().len() implies json_plain_char(
            #[trigger] s.drop_last()[i],
        ) by {
            assert(s.drop_last()[i] == s[i]);
        }
        lemma_json_escaped_plain(s.drop_last());
        assert(s.drop_last().push(s.last()) =~= s);
    }
}

/// A payload without quotes, backslashes or control characters (every base64 text) stands
/// verbatim between the quotes of the delivery script.
pub proof fn law_plain_payload_verbatim(png_base64: Seq<char>)
    requires
        forall|i: int| 0 <= i < png_base64.len() ==> json_plain_char(#[trigger] png_base64[i]),
    ensures
        deliver_script_text(png_base64) == DELIVER_GUARD_JS@ + DELIVER_CALL_OPEN@ + seq!['"']
            + png_base64 + seq!['"'] + DELIVER_CALL_CLOSE@ + DELIVER_FALLBACK_JS@,
{
    lemma_json_escaped_plain(png_base64);
    assert(deliver_script_text(png_base64) =~= DELIVER_GUARD_JS@ + DELIVER_CALL_OPEN@ + seq!['"']
        + png_base64 + seq!['"'] + DELIVER_CALL_CLOSE@ + DELIVER_FALLBACK_JS@);
}

/// Whatever the payload, the script calls the delivery helper with it as one JSON string
/// literal followed by the MIME type, so no character of the payload can end the string.
pub proof fn law_payload_delivered_as_json_literal(png_base64: Seq<char>)
    ensures
        occurs_in(
            deliver_script_text(png_base64),
            DELIVER_CALL_OPEN@ + json_string_literal(png_base64) + DELIVER_CALL_CLOSE@,
        ),
{
    let call = DELIVER_CALL_OPEN@ + json_string_literal(png_base64) + DELIVER_CALL_CLOSE@;
    let t = deliver_script_text(png_base64);
    let a = DELIVER_GUARD_JS@.len() as int;
    assert(t =~= DELIVER_GUARD_JS@ + call + DELIVER_FALLBACK_JS@);
    assert(t.subrange(a, a + call.len()) =~= call);
}

} // verus!
