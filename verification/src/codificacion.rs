//! Decoding of the bytes of an uploaded file into text: UTF-8 first, and
//! when that finds malformed sequences, the encoding that a detector guesses
//! from the start of the file.
use vstd::prelude::*;
use vstd::utf8::{decode_utf8, valid_utf8};

verus! {

/// How many bytes from the start of a file the encoding detector sees.
pub const TAMANO_MUESTRA: usize = 4096;

/// Text and malformed-sequence flag that `encoding_rs` gives when it decodes
/// `bytes` with the encoding of label `etiqueta` (`Encoding::decode`, which
/// sniffs a byte order mark first).
pub uninterp spec fn decodificacion(etiqueta: Seq<char>, bytes: Seq<u8>) -> (Seq<char>, bool);

/// Whether `encoding_rs` knows `etiqueta` as the label of an encoding
/// (`Encoding::for_label`).
pub uninterp spec fn etiqueta_reconocida(etiqueta: Seq<char>) -> bool;

/// Name of the encoding that `chardetng` guesses for `muestra`, fed as the
/// whole stream, with ISO-2022-JP not allowed, UTF-8 allowed and no
/// top-level domain.
pub uninterp spec fn codificacion_adivinada(muestra: Seq<u8>) -> Seq<char>;

/// The bytes start with a UTF-16 byte order mark.
pub open spec fn inicia_bom_utf16(b: Seq<u8>) -> bool {
    b.len() >= 2 && ((b[0] == 0xFF && b[1] == 0xFE) || (b[0] == 0xFE && b[1] == 0xFF))
}

/// The bytes without a leading UTF-8 byte order mark.
pub open spec fn sin_bom_utf8(b: Seq<u8>) -> Seq<u8> {
    if b.len() >= 3 && b[0] == 0xEF && b[1] == 0xBB && b[2] == 0xBF {
        b.skip(3)
    } else {
        b
    }
}

/// The start of the file that the encoding detector sees.
pub open spec fn muestra_inicial(b: Seq<u8>) -> Seq<u8> {
    if b.len() <= TAMANO_MUESTRA {
        b
    } else {
        b.take(TAMANO_MUESTRA as int)
    }
}

/// The text of a file: its UTF-8 decoding when that has no malformed
/// sequence; otherwise its decoding with the guessed encoding, or the UTF-8
/// decoding when the guess is not a known label.
pub open spec fn contenido_decodificado(b: Seq<u8>) -> Seq<char> {
    let utf8 = decodificacion("UTF-8"@, b);
    if !utf8.1 {
        utf8.0
    } else {
        let e = codificacion_adivinada(muestra_inicial(b));
        if etiqueta_reconocida(e) {
            decodificacion(e, b).0
        } else {
            utf8.0
        }
    }
}

/// Calls `encoding_rs::Encoding::for_label` on the label and, when it names
/// an encoding, `Encoding::decode` on the bytes.
///
/// Claimed: the result is present exactly for known labels (`UTF-8` among
/// them, as the documentation's examples show) and is the named decoding;
/// for UTF-8 on input without a UTF-16 byte order mark, malformed sequences
/// are reported exactly when the bytes after a UTF-8 byte order mark are not
/// well-formed UTF-8, and well-formed input decodes to its characters.
#[verifier::external_body]
fn decodificar(etiqueta: &str, bytes: &[u8]) -> (r: Option<(String, bool)>)
    ensures
        r is Some <==> etiqueta_reconocida(etiqueta@),
        r matches Some(p) ==> (p.0@, p.1) == decodificacion(etiqueta@, bytes@),
        etiqueta@ == "UTF-8"@ ==> r is Some,
        r matches Some(p) ==> (etiqueta@ == "UTF-8"@ && !inicia_bom_utf16(bytes@) ==> p.1
            == !valid_utf8(sin_bom_utf8(bytes@)) && (!p.1 ==> p.0@ == decode_utf8(sin_bom_utf8(bytes@)))),
{
    match encoding_rs::Encoding::for_label(etiqueta.as_bytes()) {
        Some(e) => {
            let (texto, _, errores) = e.decode(bytes);
            Some((texto.into_owned(), errores))
        },
        None => None,
    }
}

/// Runs `chardetng::EncodingDetector` on the sample: `new` with ISO-2022-JP
/// denied, one `feed` of the whole sample marked as the end of the stream,
/// and `guess` with no top-level domain and UTF-8 allowed; gives the name
/// (`Encoding::name`) of the guessed encoding.
///
/// Claimed: the name is the named guess for the sample, and `encoding_rs`
/// knows it as a label (the name of every encoding is among its labels).
#[verifier::external_body]
fn adivinar_codificacion(muestra: &[u8]) -> (r: String)
    ensures
        r@ == codificacion_adivinada(muestra@),
        etiqueta_reconocida(r@),
{
    let mut detector = chardetng::EncodingDetector::new(chardetng::Iso2022JpDetection::Deny);
    detector.feed(muestra, true);
    detector.guess(None, chardetng::Utf8Detection::Allow).name().to_string()
}

/// Decodes the bytes of a file into text.
pub fn decodificar_contenido(bytes: &[u8]) -> (texto: String)
    ensures
        texto@ == contenido_decodificado(bytes@),
        !inicia_bom_utf16(bytes@) && valid_utf8(sin_bom_utf8(bytes@)) ==> texto@ == decode_utf8(
            sin_bom_utf8(bytes@),
        ),
        decodificacion("UTF-8"@, bytes@).1 ==> texto@ == decodificacion(
            codificacion_adivinada(muestra_inicial(bytes@)),
            bytes@,
        ).0,
{
    let utf8 = decodificar("UTF-8", bytes);
    let (texto_utf8, errores) = match utf8 {
        Some(p) => p,
        None => {
            assert(false);
            (String::new(), true)
        },
    };
    if !errores {
        return texto_utf8;
    }
    let n = if bytes.len() <= TAMANO_MUESTRA {
        bytes.len()
    } else {
        TAMANO_MUESTRA
    };
    let muestra = &bytes[0..n];
    assert(muestra@ == muestra_inicial(bytes@));
    let etiqueta = adivinar_codificacion(muestra);
    match decodificar(etiqueta.as_str(), bytes) {
        Some(p) => p.0,
        None => texto_utf8,
    }
}

} // verus!
