use derroche::numeros::{caracter_digito, decimal_de, escribir_decimal};
use derroche::texto::{caracteres, dividir_en, posicion, texto_de, textos_iguales, tramo};

fn chars(s: &str) -> Vec<char> {
    s.chars().collect()
}

#[test]
fn convierte_entre_texto_y_caracteres() {
    assert_eq!(caracteres("año ✓"), vec!['a', 'ñ', 'o', ' ', '✓']);
    assert_eq!(texto_de(&chars("Categoría")), "Categoría");
    assert_eq!(caracteres(""), Vec::<char>::new());
}

#[test]
fn compara_textos() {
    assert!(textos_iguales("Enero", "Enero"));
    assert!(!textos_iguales("Enero", "enero"));
    assert!(!textos_iguales("Ene", "Enero"));
    assert!(textos_iguales("", ""));
}

#[test]
fn busca_y_corta() {
    assert_eq!(posicion(&chars("1.2-rc"), '-'), 3);
    assert_eq!(posicion(&chars("1.2"), '-'), 3);
    assert_eq!(tramo(&chars("1.2-rc"), 4, 6), chars("rc"));
    assert_eq!(tramo(&chars("abc"), 1, 1), Vec::<char>::new());
}

#[test]
fn divide_como_split() {
    let partes = |s: &str, c: char| dividir_en(&chars(s), c);
    assert_eq!(partes("1.2.3", '.'), vec![chars("1"), chars("2"), chars("3")]);
    assert_eq!(partes("", '.'), vec![chars("")]);
    assert_eq!(partes(".a.", '.'), vec![chars(""), chars("a"), chars("")]);
    assert_eq!(partes("sin", '+'), vec![chars("sin")]);
    for texto in ["1.2.3", "..", "a.b", "", "x"] {
        let esperado: Vec<Vec<char>> = texto.split('.').map(chars).collect();
        assert_eq!(partes(texto, '.'), esperado);
    }
}

#[test]
fn escribe_numeros_en_decimal() {
    assert_eq!(decimal_de(0), "0");
    assert_eq!(decimal_de(1234), "1234");
    assert_eq!(decimal_de(u64::MAX), u64::MAX.to_string());
    assert_eq!(caracter_digito(7), '7');
    let mut s = "v".to_string();
    escribir_decimal(42, &mut s);
    assert_eq!(s, "v42");
}
