use vstd::prelude::*;

verus! {

/// The regions that a node can be labelled with, by the first letters of
/// their airport codes. A region's place in the list, counted from 0, is
/// the node that stands for it.
#[derive(Debug, Copy, Clone, Ord, PartialOrd, Eq, PartialEq)]
pub enum Region {
    /// Solomon Islands
    AG,

    /// Nauru
    AN,

    /// Papua New Guinea
    AY,

    /// Greenland
    BG,

    /// Iceland
    BI,

    /// Kosovo
    BK,

    /// Canada
    C,

    /// Algeria
    DA,

    /// Benin
    DB,

    /// Burkina Faso
    DF,

    /// Ghana
    DG,

    /// Côte d'Ivoire
    DI,

    /// Nigeria
    DN,

    /// Niger
    DR,

    /// Tunisia
    DT,

    /// Togo
    DX,

    /// Belgium
    EB,

    /// Germany (civil)
    ED,

    /// Estonia
    EE,

    /// Finland
    EF,

    /// United Kingdom (and Crown Dependencies)
    EG,

    /// Netherlands
    EH,

    /// Ireland
    EI,

    /// Denmark and the Faroe Islands
    EK,

    /// Luxembourg
    EL,

    /// Norway
    EN,

    /// Poland
    EP,

    /// Sweden
    ES,

    /// Germany (military)
    ET,

    /// Latvia
    EV,

    /// Lithuania
    EY,

    /// South Africa
    FA,

    /// Botswana
    FB,

    /// Republic of the Congo
    FC,

    /// Eswatini
    FD,

    /// Central African Republic
    FE,

    /// Equatorial Guinea
    FG,

    /// Saint Helena, Ascension and Tristan da Cunha
    FH,

    /// Mauritius
    FI,

    /// British Indian Ocean Territory
    FJ,

    /// Cameroon
    FK,

    /// Zambia
    FL,

    /// Comoros, France (Mayotte and Réunion), and Madagascar
    FM,

    /// Angola
    FN,

    /// Gabon
    FO,

    /// São Tomé and Príncipe
    FP,

    /// Mozambique
    FQ,

    /// Seychelles
    FS,

    /// Chad
    FT,

    /// Zimbabwe
    FV,

    /// Malawi
    FW,

    /// Lesotho
    FX,

    /// Namibia
    FY,

    /// Democratic Republic of the Congo
    FZ,

    /// Mali
    GA,

    /// The Gambia
    GB,

    /// Spain (Canary Islands)
    GC,

    /// Spain (Ceuta and Melilla)
    GE,

    /// Sierra Leone
    GF,

    /// Guinea-Bissau
    GG,

    /// Liberia
    GL,

    /// Morocco
    GM,

    /// Senegal
    GO,

    /// Mauritania
    GQ,

    /// Western Sahara
    GS,

    /// Guinea
    GU,

    /// Cape Verde
    GV,

    /// Ethiopia
    HA,

    /// Burundi
    HB,

    /// Somalia (including Somaliland)
    HC,

    /// Djibouti
    HD,

    /// Egypt
    HE,

    /// Eritrea
    HH,

    /// South Sudan
    HJ,

    /// Kenya
    HK,

    /// Libya
    HL,

    /// Rwanda
    HR,

    /// Sudan
    HS,

    /// Tanzania
    HT,

    /// Uganda
    HU,

    /// Contiguous United States
    K,

    /// Albania
    LA,

    /// Bulgaria
    LB,

    /// Cyprus
    LC,

    /// Croatia
    LD,

    /// Spain (mainland section and Balearic Islands)
    LE,

    /// France (Metropolitan France; including Saint-Pierre and Miquelon)
    LF,

    /// Greece
    LG,

    /// Hungary
    LH,

    /// Italy (and San Marino)
    LI,

    /// Slovenia
    LJ,

    /// Czech Republic
    LK,

    /// Israel
    LL,

    /// Malta
    LM,

    /// Monaco
    LN,

    /// Austria
    LO,

    /// Portugal (including the Azores and Madeira)
    LP,

    /// Bosnia and Herzegovina
    LQ,

    /// Romania
    LR,

    /// Switzerland
    LS,

    /// Turkey
    LT,

    /// Moldova
    LU,

    /// Palestine/Palestinian territories
    LV,

    /// North Macedonia
    LW,

    /// Gibraltar
    LX,

    /// Serbia and Montenegro
    LY,

    /// Slovakia
    LZ,

    /// Turks and Caicos Islands
    MB,

    /// Dominican Republic
    MD,

    /// Guatemala
    MG,

    /// Honduras
    MH,

    /// Jamaica
    MK,

    /// Mexico
    MM,

    /// Nicaragua
    MN,

    /// Panama
    MP,

    /// Costa Rica
    MR,

    /// El Salvador
    MS,

    /// Haiti
    MT,

    /// Cuba
    MU,

    /// Cayman Islands
    MW,

    /// Bahamas
    MY,

    /// Belize
    MZ,

    /// Cook Islands
    NC,

    /// Fiji, Tonga
    NF,

    /// Kiribati (Gilbert Islands), Tuvalu
    NG,

    /// Niue
    NI,

    /// France (Wallis and Futuna)
    NL,

    /// Samoa, United States (American Samoa)
    NS,

    /// France (French Polynesia)
    NT,

    /// Vanuatu
    NV,

    /// France (New Caledonia)
    NW,

    /// New Zealand, parts of Antarctica
    NZ,

    /// Afghanistan
    OA,

    /// Bahrain
    OB,

    /// Saudi Arabia
    OE,

    /// Iran
    OI,

    /// Jordan and the West Bank
    OJ,

    /// Kuwait
    OK,

    /// Lebanon
    OL,

    /// United Arab Emirates
    OM,

    /// Oman
    OO,

    /// Pakistan
    OP,

    /// Iraq
    OR,

    /// Syria
    OS,

    /// Qatar
    OT,

    /// Yemen
    OY,

    /// US (Alaska) (also PF, PO and PP)
    PA,

    /// US (Baker Island)
    PB,

    /// Kiribati (Canton Airfield, Phoenix Islands)
    PC,

    /// US (Alaska) (also PA, PO and PP)
    PF,

    /// US (Guam, Northern Mariana Islands)
    PG,

    /// US (Hawaii)
    PH,

    /// US (Johnston Atoll)
    PJ,

    /// Marshall Islands
    PK,

    /// Kiribati (Line Islands)
    PL,

    /// US (Midway Island)
    PM,

    /// US (Alaska) (also PA, PF and PP)
    PO,

    /// US (Alaska) (also PA, PF and PO)
    PP,

    /// Federated States of Micronesia, Palau
    PT,

    /// US (Wake Island)
    PW,

    /// Republic of China (Taiwan)
    RC,

    /// Japan (Mainland)
    RJ,

    /// South Korea (Republic of Korea)
    RK,

    /// Japan (Okinawa)
    RO,

    /// Philippines
    RP,

    /// Argentina (including parts of Antarctica)
    SA,

    /// Brazil (also SD, SI, SJ, SN, SS and SW)
    SB,

    /// Chile (including Easter Island and parts of Antarctica) (also SH)
    SC,

    /// Brazil (also SB, SI, SJ, SN, SS and SW)
    SD,

    /// Ecuador
    SE,

    /// United Kingdom (Falkland Islands)
    SF,

    /// Paraguay
    SG,

    /// Chile (also SC)
    SH,

    /// Brazil (also SB, SD, SJ, SN, SS and SW)
    SI,

    /// Brazil (also SB, SD, SI, SN, SS and SW)
    SJ,

    /// Colombia
    SK,

    /// Bolivia
    SL,

    /// Suriname
    SM,

    /// Brazil (also SB, SD, SI, SJ, SS and SW)
    SN,

    /// France (French Guiana)
    SO,

    /// Peru
    SP,

    /// Brazil (also SB, SD, SI, SJ, SN and SW)
    SS,

    /// Uruguay
    SU,

    /// Venezuela
    SV,

    /// Brazil (also SB, SD, SI, SJ, SN and SS)
    SW,

    /// Guyana
    SY,

    /// Antigua and Barbuda
    TA,

    /// Barbados
    TB,

    /// Dominica
    TD,

    /// France (Guadeloupe, Martinique, Saint Barthélemy, Saint Martin)
    TF,

    /// Grenada
    TG,

    /// US (U.S. Virgin Islands)
    TI,

    /// US (Puerto Rico)
    TJ,

    /// Saint Kitts and Nevis
    TK,

    /// Saint Lucia
    TL,

    /// Caribbean Netherlands, Aruba, Curaçao, Sint Maarten
    TN,

    /// UK (Anguilla)
    TQ,

    /// UK (Montserrat)
    TR,

    /// Trinidad and Tobago
    TT,

    /// UK (British Virgin Islands)
    TU,

    /// Saint Vincent and the Grenadines
    TV,

    /// UK (Bermuda)
    TX,

    /// Russia (except as below)
    U,

    /// Kazakhstan
    UA,

    /// Azerbaijan
    UB,

    /// Kyrgyzstan
    UC,

    /// Armenia
    UD,

    /// Georgia
    UG,

    /// Ukraine
    UK,

    /// Belarus and Russia (Kaliningrad Oblast)
    UM,

    /// Tajikistan, Turkmenistan, Uzbekistan
    UT,

    /// India (West India)
    VA,

    /// Sri Lanka
    VC,

    /// Cambodia
    VD,

    /// India (East India)
    VE,

    /// Bangladesh
    VG,

    /// Hong Kong
    VH,

    /// India (North India)
    VI,

    /// Laos
    VL,

    /// Macau
    VM,

    /// Nepal
    VN,

    /// India (South India)
    VO,

    /// Bhutan
    VQ,

    /// Maldives
    VR,

    /// Thailand
    VT,

    /// Vietnam
    VV,

    /// Myanmar
    VY,

    /// Indonesia (also WI, WQ and WR)
    WA,

    /// Brunei, Malaysia (East Malaysia)
    WB,

    /// Indonesia (also WA, WQ and WR)
    WI,

    /// Malaysia (Peninsular Malaysia)
    WM,

    /// Timor-Leste
    WP,

    /// Indonesia (also WA, WI and WR)
    WQ,

    /// Indonesia (also WA, WI and WQ)
    WR,

    /// Singapore
    WS,

    /// Australia (including Norfolk Island, Christmas Island, Cocos (Keeling) Islands and Australian Antarctic Territory)
    Y,

    /// Mainland China (except ZK and ZM)
    Z,

    /// North Korea
    ZK,

    /// Mongolia
    ZM,
}

} // verus!
