use hex::FromHex;

#[test]
fn first_attempt() {
    let line_1 =
        "15481555260c011c535055565d671501024255554b00350d131d0a0a024c0014000a024501061b0105490c464312160b4f190b550e05490d03191b5746001c4c0b0f0b4b034f";

    let keys = vec!["The"];
    let ciphertext: Vec<u8> = Vec::from_hex(line_1).expect("Invalid Hex String");

    for key in keys {
        // Key to hex to bytes
        let key_bytes = key.as_bytes();
        println!("\nkey:{key}");

        // XOR ciphertext bytes with key bytes
        for i in 0..ciphertext.len() - key_bytes.len() {
            let mut c = ciphertext.clone();
            let slice = &mut c[i..i + key_bytes.len()];
            for a in 0..slice.len() {
                slice[a] = slice[a] ^ key_bytes[a];
            }

            // Encode to UTF8
            let x = std::str::from_utf8(&c[..]).unwrap();
            if x.contains(key) {
                println!("{x:?}");
            }
        }
    }
}
